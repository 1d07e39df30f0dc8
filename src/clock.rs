//! Fixed-timestep pacing: real elapsed time is banked as lag and paid out in
//! whole simulation steps of a constant length.

use vstd::prelude::*;

verus! {

/// Accumulator of elapsed milliseconds, drained in steps of `step_ms`.
pub struct FixedStep {
    step_ms: u32,
    lag_ms: u32,
}

impl FixedStep {
    /// Length of one simulation step, in milliseconds.
    pub closed spec fn step(&self) -> nat {
        self.step_ms as nat
    }

    /// Banked time not yet paid out as a step, in milliseconds.
    pub closed spec fn lag(&self) -> nat {
        self.lag_ms as nat
    }

    /// The step is positive and the banked time never amounts to a whole step.
    pub open spec fn wf(&self) -> bool {
        0 < self.step() && self.lag() < self.step()
    }

    pub fn new(step_ms: u32) -> (r: FixedStep)
        requires
            step_ms > 0,
        ensures
            r.wf(),
            r.step() == step_ms,
            r.lag() == 0,
    {
        FixedStep { step_ms, lag_ms: 0 }
    }

    pub fn step_ms(&self) -> (r: u32)
        ensures
            r == self.step(),
    {
        self.step_ms
    }

    pub fn lag_ms(&self) -> (r: u32)
        ensures
            r == self.lag(),
    {
        self.lag_ms
    }

    /// Banks `elapsed_ms` and returns how many whole steps are due now. The
    /// remainder stays banked for the next call; no time is lost or invented.
    pub fn advance(&mut self, elapsed_ms: u32) -> (steps: u64)
        requires
            old(self).wf(),
        ensures
            final(self).wf(),
            final(self).step() == old(self).step(),
            steps * old(self).step() + final(self).lag() == old(self).lag() + elapsed_ms,
    {
        let total: u64 = self.lag_ms as u64 + elapsed_ms as u64;
        let step: u64 = self.step_ms as u64;
        let steps: u64 = total / step;
        let rest: u64 = total % step;
        proof {
            vstd::arithmetic::div_mod::lemma_fundamental_div_mod(total as int, step as int);
            vstd::arithmetic::mul::lemma_mul_is_commutative(steps as int, step as int);
        }
        self.lag_ms = rest as u32;
        steps
    }
}

} // verus!
