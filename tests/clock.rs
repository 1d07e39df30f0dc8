use waypoint_steer::clock::FixedStep;

#[test]
fn fresh_clock_has_no_lag() {
    let clock = FixedStep::new(16);
    assert_eq!(clock.step_ms(), 16);
    assert_eq!(clock.lag_ms(), 0);
}

#[test]
fn elapsed_time_is_paid_out_in_whole_steps() {
    let mut clock = FixedStep::new(16);
    assert_eq!(clock.advance(40), 2);
    assert_eq!(clock.lag_ms(), 8);
    assert_eq!(clock.advance(10), 1);
    assert_eq!(clock.lag_ms(), 2);
}

#[test]
fn short_frames_bank_their_time() {
    let mut clock = FixedStep::new(16);
    assert_eq!(clock.advance(0), 0);
    assert_eq!(clock.advance(15), 0);
    assert_eq!(clock.lag_ms(), 15);
    assert_eq!(clock.advance(1), 1);
    assert_eq!(clock.lag_ms(), 0);
}

#[test]
fn largest_elapsed_time_does_not_overflow() {
    let mut clock = FixedStep::new(1);
    assert_eq!(clock.advance(u32::MAX), u32::MAX as u64);
    assert_eq!(clock.lag_ms(), 0);
    let mut slow = FixedStep::new(u32::MAX);
    assert_eq!(slow.advance(u32::MAX - 1), 0);
    assert_eq!(slow.advance(u32::MAX), 1);
    assert_eq!(slow.lag_ms(), u32::MAX - 1);
}
