//! Pacing of the metrics loop.
use vstd::prelude::*;

verus! {

/// Longest single pause of the metrics loop, in milliseconds: the loop
/// looks at its shutdown flag at least this often.
pub const SLEEP_SLICE_MS: u64 = 100;

/// The next pause, in milliseconds, when `slept_ms` of an interval of
/// `interval_ms` have passed: a slice of at most `SLEEP_SLICE_MS` that does
/// not overshoot the interval, or `None` once the interval is over.
pub open spec fn spec_sleep_step(interval_ms: u64, slept_ms: u64) -> Option<u64> {
    if slept_ms < interval_ms {
        if interval_ms - slept_ms < SLEEP_SLICE_MS {
            Some((interval_ms - slept_ms) as u64)
        } else {
            Some(SLEEP_SLICE_MS)
        }
    } else {
        None
    }
}

/// The next pause of an interruptible sleep (see `spec_sleep_step`).
pub fn sleep_step(interval_ms: u64, slept_ms: u64) -> (r: Option<u64>)
    ensures
        r == spec_sleep_step(interval_ms, slept_ms),
{
    if slept_ms < interval_ms {
        let left = interval_ms - slept_ms;
        if left < SLEEP_SLICE_MS {
            Some(left)
        } else {
            Some(SLEEP_SLICE_MS)
        }
    } else {
        None
    }
}

/// The time slept by taking every step from `slept_ms` on.
pub open spec fn remaining_sleep(interval_ms: u64, slept_ms: u64) -> int
    decreases interval_ms - slept_ms,
{
    match spec_sleep_step(interval_ms, slept_ms) {
        Some(step) => step + remaining_sleep(interval_ms, (slept_ms + step) as u64),
        None => 0,
    }
}

/// An uninterrupted sleep lasts exactly the interval: its steps are
/// positive, never longer than `SLEEP_SLICE_MS`, and add up to what is left.
pub proof fn lemma_sleep_adds_up(interval_ms: u64, slept_ms: u64)
    requires
        slept_ms <= interval_ms,
    ensures
        remaining_sleep(interval_ms, slept_ms) == interval_ms - slept_ms,
        spec_sleep_step(interval_ms, slept_ms) matches Some(step) ==> 0 < step <= SLEEP_SLICE_MS,
    decreases interval_ms - slept_ms,
{
    if slept_ms < interval_ms {
        let step = spec_sleep_step(interval_ms, slept_ms)->Some_0;
        lemma_sleep_adds_up(interval_ms, (slept_ms + step) as u64);
    }
}

} // verus!
