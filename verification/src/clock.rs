//! Time on the process's monotonic clock, counted in whole milliseconds.

use vstd::prelude::*;

verus! {

/// Time that has passed at `now` since the instant `since`. An instant that
/// lies after `now` counts as having just happened.
pub open spec fn elapsed(now: u64, since: u64) -> int {
    if now >= since {
        now - since
    } else {
        0
    }
}

/// Milliseconds that have passed at `now` since `since`.
pub fn elapsed_ms(now: u64, since: u64) -> (r: u64)
    ensures
        r == elapsed(now, since),
{
    if now >= since {
        now - since
    } else {
        0
    }
}

} // verus!
