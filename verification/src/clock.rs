use vstd::prelude::*;

verus! {

/// The frame clock: a start timestamp in milliseconds captured once at
/// startup. Each frame derives its elapsed time from a host-supplied
/// reading of the current time.
#[derive(Debug)]
pub struct FrameClock {
    pub start_ms: u64,
}

/// Elapsed milliseconds between a start timestamp and a clock reading;
/// a reading that precedes the start counts as zero elapsed time.
pub open spec fn spec_elapsed(start_ms: u64, now_ms: u64) -> u64 {
    if now_ms >= start_ms {
        (now_ms - start_ms) as u64
    } else {
        0u64
    }
}

impl FrameClock {
    pub fn new(start_ms: u64) -> (c: FrameClock)
        ensures
            c.start_ms == start_ms,
    {
        FrameClock { start_ms }
    }

    pub fn elapsed_ms(&self, now_ms: u64) -> (e: u64)
        ensures
            e == spec_elapsed(self.start_ms, now_ms),
    {
        if now_ms >= self.start_ms {
            now_ms - self.start_ms
        } else {
            0
        }
    }
}

/// For a fixed start time, elapsed time is monotonically non-decreasing
/// in the clock reading, so consecutive frames driven by a non-decreasing
/// clock report non-decreasing elapsed times.
pub proof fn lemma_elapsed_monotonic(start_ms: u64, now1_ms: u64, now2_ms: u64)
    requires
        now1_ms <= now2_ms,
    ensures
        spec_elapsed(start_ms, now1_ms) <= spec_elapsed(start_ms, now2_ms),
{
}

} // verus!
