//! The stop decision of the capture-and-forward loop.

use vstd::prelude::*;

verus! {

/// Whether the capture loop must stop: a packet budget is reached, or a time
/// budget has elapsed; with no budgets the loop runs on.
pub fn capture_limits_reached(
    forwarded: usize,
    max_packets: Option<usize>,
    elapsed_ms: u64,
    max_duration_ms: Option<u64>,
) -> (r: bool)
    ensures
        r == ((max_packets matches Some(limit) && forwarded >= limit) || (
        max_duration_ms matches Some(limit) && elapsed_ms >= limit)),
{
    let by_count = match max_packets {
        Some(limit) => forwarded >= limit,
        None => false,
    };
    let by_time = match max_duration_ms {
        Some(limit) => elapsed_ms >= limit,
        None => false,
    };
    by_count || by_time
}

} // verus!
