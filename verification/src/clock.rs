//! Turns a stream of monotonic timestamps into per-frame elapsed durations.

use vstd::prelude::*;

verus! {

/// Remembers the previously seen timestamp so that each new sample yields the
/// duration elapsed since the one before it. The very first sample reports an
/// elapsed duration of zero, since there is no prior sample; a timestamp that
/// runs backward is clamped to a zero elapsed duration rather than a negative
/// one.
pub struct Clock {
    /// Whether a first sample has been taken.
    pub started: bool,
    /// The timestamp seen by the most recent call to `sample`, in nanoseconds.
    pub last_sample_ns: u64,
}

impl Clock {
    /// The elapsed duration a sample taken at `now_ns` reports: zero before the
    /// first sample and on a backward step, the difference otherwise.
    pub open spec fn spec_elapsed(self, now_ns: u64) -> nat {
        if !self.started {
            0
        } else if now_ns >= self.last_sample_ns {
            (now_ns - self.last_sample_ns) as nat
        } else {
            0
        }
    }

    pub fn new() -> (clock: Clock)
        ensures
            !clock.started,
    {
        Clock { started: false, last_sample_ns: 0 }
    }

    /// Report the duration elapsed since the previous sample and remember
    /// `now_ns` as the new reference point. Never returns a negative duration:
    /// a backward-running time source yields zero.
    pub fn sample(&mut self, now_ns: u64) -> (elapsed_ns: u64)
        ensures
            elapsed_ns == old(self).spec_elapsed(now_ns),
            final(self).started,
            final(self).last_sample_ns == now_ns,
    {
        let elapsed_ns: u64 = if !self.started {
            0
        } else if now_ns >= self.last_sample_ns {
            now_ns - self.last_sample_ns
        } else {
            0
        };
        self.started = true;
        self.last_sample_ns = now_ns;
        elapsed_ns
    }
}

} // verus!
