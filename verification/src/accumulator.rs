//! The time-debt accumulator: absorbs each frame's clamped elapsed duration
//! and is drained in fixed-size steps.

use vstd::prelude::*;

verus! {

/// Holds unspent simulation time ("time debt") in nanoseconds. Each frame's
/// elapsed duration is clamped to the configured maximum before it is added,
/// so a single stalled frame can never cause an unbounded burst of catch-up
/// updates; the excess is silently discarded.
pub struct Accumulator {
    /// Simulation time not yet spent on updates, in nanoseconds.
    pub time_debt_ns: u64,
}

impl Accumulator {
    pub fn new() -> (accumulator: Accumulator)
        ensures
            accumulator.time_debt_ns == 0,
    {
        Accumulator { time_debt_ns: 0 }
    }

    /// Clamp `elapsed_ns` to at most `max_frame_time_ns` and add the clamped
    /// duration to the time debt. Returns the clamped duration.
    pub fn absorb(&mut self, elapsed_ns: u64, max_frame_time_ns: u64) -> (clamped_ns: u64)
        requires
            old(self).time_debt_ns + max_frame_time_ns <= u64::MAX,
        ensures
            clamped_ns == if elapsed_ns > max_frame_time_ns { max_frame_time_ns } else { elapsed_ns },
            final(self).time_debt_ns == old(self).time_debt_ns + clamped_ns,
    {
        let clamped_ns: u64 = if elapsed_ns > max_frame_time_ns {
            max_frame_time_ns
        } else {
            elapsed_ns
        };
        self.time_debt_ns = self.time_debt_ns + clamped_ns;
        clamped_ns
    }

    /// Whether the debt covers one more fixed step.
    pub fn step_ready(&self, fixed_time_step_ns: u64) -> (ready: bool)
        ensures
            ready == (self.time_debt_ns >= fixed_time_step_ns),
    {
        self.time_debt_ns >= fixed_time_step_ns
    }

    /// Spend one fixed step's worth of debt.
    pub fn consume(&mut self, fixed_time_step_ns: u64)
        requires
            old(self).time_debt_ns >= fixed_time_step_ns,
        ensures
            final(self).time_debt_ns == old(self).time_debt_ns - fixed_time_step_ns,
    {
        self.time_debt_ns = self.time_debt_ns - fixed_time_step_ns;
    }
}

} // verus!
