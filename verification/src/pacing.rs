//! Frame pacing: how long an iteration suspends before it returns.

use vstd::prelude::*;

verus! {

/// The suspension an iteration owes once its work is done: the remainder of
/// the target frame interval, or nothing at all when the work already took at
/// least that long — the pipeline falls behind schedule rather than dropping
/// frames to catch up.
pub fn pace_delay_micros(elapsed_micros: u64, target_micros: u64) -> (delay: u64)
    ensures
        elapsed_micros < target_micros ==> delay == target_micros - elapsed_micros,
        elapsed_micros >= target_micros ==> delay == 0,
{
    if elapsed_micros < target_micros {
        target_micros - elapsed_micros
    } else {
        0
    }
}

} // verus!
