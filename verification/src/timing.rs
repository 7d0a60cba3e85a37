//! Latency instrumentation: elapsed milliseconds between two wall-clock
//! readings. Reading the clock is the caller's outside work; the
//! computation here never alters a wrapped operation's result and never
//! yields a negative duration.

use vstd::prelude::*;

verus! {

/// The elapsed milliseconds reported for readings `start_ms` and `end_ms`:
/// their difference when the readings are ordered, and zero otherwise
/// (a clock that jumped backwards is reported as no elapsed time, never
/// as a wrapped-around huge one).
pub open spec fn spec_elapsed_ms(start_ms: u64, end_ms: u64) -> u64 {
    if start_ms <= end_ms {
        (end_ms - start_ms) as u64
    } else {
        0u64
    }
}

/// Computes [`spec_elapsed_ms`] for concrete readings.
pub fn elapsed_ms_between(start_ms: u64, end_ms: u64) -> (e: u64)
    ensures
        e == spec_elapsed_ms(start_ms, end_ms),
        start_ms <= end_ms ==> start_ms + e == end_ms,
{
    if start_ms <= end_ms {
        end_ms - start_ms
    } else {
        0
    }
}

/// Law: instrumentation is purely observational and non-negative — for
/// ordered readings the reported duration is exactly the distance between
/// them, and no pair of readings ever yields a duration below zero.
pub proof fn lemma_elapsed_consistent(start_ms: u64, end_ms: u64)
    ensures
        spec_elapsed_ms(start_ms, end_ms) >= 0,
        start_ms <= end_ms ==> start_ms + spec_elapsed_ms(start_ms, end_ms) == end_ms,
        start_ms > end_ms ==> spec_elapsed_ms(start_ms, end_ms) == 0,
{
}

} // verus!
