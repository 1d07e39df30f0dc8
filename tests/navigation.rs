use navmesh::{NavMesh, NavVec3};
use waypoint_steer::nav::{NavError, NavigationState, Navigator, Progress, Steering};

fn p(x: f32, y: f32, z: f32) -> NavVec3 {
    NavVec3::new(x, y, z)
}

fn square_mesh() -> NavMesh {
    let vertices = vec![
        (1.0, 1.0, 0.0).into(),
        (-1.0, 1.0, 0.0).into(),
        (1.0, -1.0, 0.0).into(),
        (-1.0, -1.0, 0.0).into(),
    ];
    let triangles = vec![(0, 1, 2).into(), (1, 2, 3).into()];
    NavMesh::new(vertices, triangles).unwrap()
}

fn two_islands_mesh() -> NavMesh {
    let vertices = vec![
        (0.0, 0.0, 0.0).into(),
        (1.0, 0.0, 0.0).into(),
        (0.0, 1.0, 0.0).into(),
        (10.0, 10.0, 0.0).into(),
        (11.0, 10.0, 0.0).into(),
        (10.0, 11.0, 0.0).into(),
    ];
    let triangles = vec![(0, 1, 2).into(), (3, 4, 5).into()];
    NavMesh::new(vertices, triangles).unwrap()
}

fn close(a: NavVec3, b: NavVec3) -> bool {
    (a - b).magnitude() < 1e-4
}

fn assert_fresh(nav: &Navigator) {
    assert_eq!(nav.state(), NavigationState::Idle);
    assert_eq!(nav.waypoint_count(), 0);
    assert!(nav.waypoints().is_empty());
    assert!(matches!(nav.steering(), Steering::Brake));
}

#[test]
fn new_navigator_is_idle_and_brakes() {
    let nav = Navigator::new();
    assert_fresh(&nav);
}

#[test]
fn idle_tick_changes_nothing() {
    let mut nav = Navigator::new();
    assert_eq!(nav.advance(true), Progress::Stopped);
    assert_eq!(nav.advance(false), Progress::Stopped);
    assert_fresh(&nav);
}

#[test]
fn a_plan_is_followed_from_its_first_point() {
    let mut nav = Navigator::new();
    let a = p(1.0, 0.0, 0.0);
    let b = p(2.0, 0.0, 0.0);
    assert_eq!(nav.follow_plan(Some(vec![a, b])), Ok(()));
    assert_eq!(nav.state(), NavigationState::Following);
    assert_eq!(nav.waypoints(), &[a, b][..]);
    match nav.steering() {
        Steering::Seek(w) => assert_eq!(w, a),
        Steering::Brake => panic!("a following navigator must seek its first waypoint"),
    }
}

#[test]
fn reached_waypoints_are_dropped_in_order() {
    let mut nav = Navigator::new();
    let a = p(1.0, 0.0, 0.0);
    let b = p(2.0, 0.0, 0.0);
    nav.follow_plan(Some(vec![a, b])).unwrap();
    assert_eq!(nav.advance(false), Progress::EnRoute);
    assert_eq!(nav.waypoints(), &[a, b][..]);
    assert_eq!(nav.advance(true), Progress::Advanced);
    assert_eq!(nav.waypoints(), &[b][..]);
    assert_eq!(nav.state(), NavigationState::Following);
    match nav.steering() {
        Steering::Seek(w) => assert_eq!(w, b),
        Steering::Brake => panic!("one waypoint is left"),
    }
    assert_eq!(nav.advance(true), Progress::Arrived);
    assert_fresh(&nav);
}

#[test]
fn queue_never_grows_during_ticks() {
    let mut nav = Navigator::new();
    let route = vec![p(1.0, 0.0, 0.0), p(2.0, 0.0, 0.0), p(3.0, 0.0, 0.0)];
    nav.follow_plan(Some(route)).unwrap();
    let ticks = [false, true, false, false, true, true, true, false, true];
    let mut before = nav.waypoint_count();
    for reached in ticks {
        nav.advance(reached);
        let after = nav.waypoint_count();
        assert!(after <= before);
        before = after;
    }
    assert_eq!(before, 0);
}

#[test]
fn arrival_is_reported_exactly_once() {
    let mut nav = Navigator::new();
    nav.follow_plan(Some(vec![p(1.0, 0.0, 0.0), p(2.0, 0.0, 0.0)])).unwrap();
    let mut arrivals = 0;
    let mut idle_since_arrival = true;
    for _ in 0..6 {
        let progress = nav.advance(true);
        if progress == Progress::Arrived {
            arrivals += 1;
        } else if arrivals > 0 {
            idle_since_arrival &= progress == Progress::Stopped;
            idle_since_arrival &= nav.state() == NavigationState::Idle;
        }
    }
    assert_eq!(arrivals, 1);
    assert!(idle_since_arrival);
    nav.clear_waypoint();
    assert_eq!(nav.follow_plan(None), Err(NavError::PathUnavailable));
    assert_eq!(nav.advance(true), Progress::Stopped);
    assert_fresh(&nav);
}

#[test]
fn missing_route_replaces_the_old_one() {
    let mut nav = Navigator::new();
    nav.follow_plan(Some(vec![p(1.0, 0.0, 0.0)])).unwrap();
    assert_eq!(nav.follow_plan(None), Err(NavError::PathUnavailable));
    assert_fresh(&nav);
}

#[test]
fn empty_route_leaves_the_body_idle() {
    let mut nav = Navigator::new();
    nav.follow_plan(Some(vec![p(1.0, 0.0, 0.0)])).unwrap();
    assert_eq!(nav.follow_plan(Some(Vec::new())), Ok(()));
    assert_fresh(&nav);
}

#[test]
fn clear_cancels_a_route() {
    let mut nav = Navigator::new();
    nav.follow_plan(Some(vec![p(1.0, 0.0, 0.0), p(0.0, 1.0, 0.0)])).unwrap();
    nav.clear_waypoint();
    assert_fresh(&nav);
    nav.clear_waypoint();
    assert_fresh(&nav);
}

#[test]
fn set_waypoint_follows_the_planned_route() {
    let mesh = square_mesh();
    let mut nav = Navigator::new();
    let start = p(-0.5, -0.5, 0.0);
    let goal = p(0.5, 0.5, 0.0);
    assert_eq!(nav.set_waypoint(&mesh, start, goal), Ok(()));
    assert_eq!(nav.state(), NavigationState::Following);
    let route = nav.waypoints();
    assert!(route.len() >= 2);
    assert!(close(route[0], start));
    assert!(close(route[route.len() - 1], goal));
}

#[test]
fn set_waypoint_to_the_current_position_is_unavailable() {
    let mesh = square_mesh();
    let mut nav = Navigator::new();
    let here = p(0.25, 0.5, 0.0);
    nav.follow_plan(Some(vec![p(1.0, 0.0, 0.0)])).unwrap();
    assert_eq!(nav.set_waypoint(&mesh, here, here), Err(NavError::PathUnavailable));
    assert_fresh(&nav);
}

#[test]
fn set_waypoint_without_a_route_leaves_the_body_idle() {
    let mesh = two_islands_mesh();
    let mut nav = Navigator::new();
    nav.follow_plan(Some(vec![p(1.0, 0.0, 0.0)])).unwrap();
    let start = p(0.2, 0.2, 0.0);
    let goal = p(10.2, 10.2, 0.0);
    assert_eq!(nav.set_waypoint(&mesh, start, goal), Err(NavError::PathUnavailable));
    assert_fresh(&nav);
}

#[test]
fn set_waypoint_then_clear_is_like_new() {
    let mesh = square_mesh();
    let mut nav = Navigator::new();
    nav.set_waypoint(&mesh, p(-0.5, -0.5, 0.0), p(0.5, 0.5, 0.0)).unwrap();
    nav.clear_waypoint();
    let fresh = Navigator::new();
    assert_eq!(nav.state(), fresh.state());
    assert_eq!(nav.waypoints(), fresh.waypoints());
    assert_fresh(&nav);
}

#[test]
fn following_a_planned_route_ends_idle() {
    let mesh = square_mesh();
    let mut nav = Navigator::new();
    nav.set_waypoint(&mesh, p(-0.5, -0.5, 0.0), p(0.5, 0.5, 0.0)).unwrap();
    let n = nav.waypoint_count();
    for _ in 1..n {
        assert_eq!(nav.advance(true), Progress::Advanced);
    }
    assert_eq!(nav.advance(true), Progress::Arrived);
    assert_fresh(&nav);
}

#[test]
fn a_clone_follows_the_same_route() {
    let mut nav = Navigator::new();
    let a = p(1.0, 0.0, 0.0);
    let b = p(2.0, 0.0, 0.0);
    nav.follow_plan(Some(vec![a, b])).unwrap();
    let mut copy = nav.clone();
    assert_eq!(copy.state(), nav.state());
    assert_eq!(copy.waypoints(), nav.waypoints());
    assert_eq!(copy.advance(true), Progress::Advanced);
    assert_eq!(nav.waypoint_count(), 2);
}
