//! Bounds of metric analytics queries: how row counts are reported, how far
//! a capped query reads, and when samples are read at all.
use vstd::prelude::*;

verus! {

/// A database row count as a `usize`: a count that is negative or does not
/// fit saturates at `usize::MAX`.
pub fn count_to_usize(count: i64) -> (r: usize)
    ensures
        0 <= count <= usize::MAX ==> r == count,
        !(0 <= count <= usize::MAX) ==> r == usize::MAX,
{
    if count < 0 {
        usize::MAX
    } else if count as u64 > usize::MAX as u64 {
        usize::MAX
    } else {
        count as usize
    }
}

/// The row limit of a query capped at `cap` results: one more than the cap,
/// so that exceeding it can be detected, saturating at `i64::MAX`.
pub fn probe_limit(cap: usize) -> (r: i64)
    ensures
        r == (if cap + 1 <= usize::MAX {
            if cap + 1 <= i64::MAX { cap + 1 } else { i64::MAX as int }
        } else {
            if usize::MAX <= i64::MAX { usize::MAX as int } else { i64::MAX as int }
        }),
{
    let probe = cap.saturating_add(1);
    if probe as u64 > i64::MAX as u64 {
        i64::MAX
    } else {
        probe as i64
    }
}

/// Samples are read only when the compatible devices fit the cap and at
/// least one device was found; otherwise the answer has no buckets.
pub fn buckets_needed(compatible_devices: usize, max_devices: usize, devices_found: usize) -> (r: bool)
    ensures
        r == (compatible_devices <= max_devices && devices_found > 0),
{
    !(compatible_devices > max_devices || devices_found == 0)
}

} // verus!
