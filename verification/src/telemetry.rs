//! Telemetry write and maintenance outcomes, and the rollup recompute window.
use vstd::prelude::*;

verus! {

#[derive(Debug, Clone, Copy, PartialEq, Eq, Structural)]
pub struct TelemetryWriteOutcome {
    pub recorded: bool,
    pub actions_enqueued: usize,
}

#[derive(Debug, Clone, Copy, PartialEq, Eq, Structural)]
pub struct PartitionMaintenance {
    pub created_count: i32,
    pub dropped_count: i32,
}

#[derive(Debug, Clone, Copy, PartialEq, Eq, Structural)]
pub struct TelemetryMaintenanceOutcome {
    pub rollups_upserted: usize,
    pub rows_deleted: usize,
    pub partitions: PartitionMaintenance,
}

/// Nanoseconds in one hour.
pub const NANOS_PER_HOUR: i128 = 3_600_000_000_000;

/// The earliest UTC instant that `chrono::NaiveDateTime` represents,
/// January 1, 262144 BCE (astronomical year -262143), in nanoseconds since
/// the Unix epoch.
pub const MIN_TIMESTAMP_NANOS: i128 = -8_334_601_228_800_000_000_000;

/// The latest UTC instant that `chrono::NaiveDateTime` represents,
/// December 31, 262142 at 23:59:59.999999999, in nanoseconds since the Unix epoch.
pub const MAX_TIMESTAMP_NANOS: i128 = 8_210_266_876_799_999_999_999;

/// The start of the hour that contains `t` (nanoseconds since the epoch).
pub open spec fn hour_start(t: int) -> int {
    t - t % (NANOS_PER_HOUR as int)
}

/// The first hour that starts at or after the prune boundary: the boundary
/// itself when it is a whole hour, otherwise the next whole hour. `None`
/// when that hour lies beyond the representable range.
pub open spec fn first_complete_hour(boundary: int) -> Option<int> {
    let hour = hour_start(boundary);
    if hour == boundary {
        Some(hour)
    } else if hour + NANOS_PER_HOUR <= MAX_TIMESTAMP_NANOS {
        Some(hour + NANOS_PER_HOUR)
    } else {
        None
    }
}

/// Only whole hours whose raw data has never been pruned are recomputed:
/// the start is the requested instant, moved forward to the first complete
/// hour after the prune boundary when there is one. Instants are UTC
/// nanoseconds since the Unix epoch, within the range of `NaiveDateTime`.
pub fn rollup_recompute_start(requested: i128, pruned_before: Option<i128>) -> (r: Option<i128>)
    requires
        MIN_TIMESTAMP_NANOS <= requested <= MAX_TIMESTAMP_NANOS,
        pruned_before matches Some(b) ==> MIN_TIMESTAMP_NANOS <= b <= MAX_TIMESTAMP_NANOS,
    ensures
        pruned_before is None ==> r == Some(requested),
        pruned_before matches Some(b) ==> match first_complete_hour(b as int) {
            Some(h) => r == Some((if requested >= h { requested as int } else { h }) as i128),
            None => r is None,
        },
{
    let boundary = match pruned_before {
        None => return Some(requested),
        Some(b) => b,
    };
    let rem = boundary % NANOS_PER_HOUR;
    let rem = if rem < 0 { rem + NANOS_PER_HOUR } else { rem };
    let hour = boundary - rem;
    proof {
        assert(rem as int == (boundary as int) % (NANOS_PER_HOUR as int));
    }
    let first = if hour == boundary {
        hour
    } else if hour <= MAX_TIMESTAMP_NANOS - NANOS_PER_HOUR {
        hour + NANOS_PER_HOUR
    } else {
        return None;
    };
    Some(if requested >= first { requested } else { first })
}

/// Law: recomputation never starts inside pruned data: the start lies at or
/// after the prune boundary, at or after the requested instant, and is
/// either the requested instant or a whole hour.
pub proof fn lemma_recompute_start_after_pruning(requested: int, boundary: int)
    requires
        first_complete_hour(boundary) is Some,
    ensures
        ({
            let h = first_complete_hour(boundary)->0;
            let start = if requested >= h { requested } else { h };
            &&& start >= boundary
            &&& start >= requested
            &&& (start == requested || start % (NANOS_PER_HOUR as int) == 0)
        }),
{
    let hour = hour_start(boundary);
    assert(hour % (NANOS_PER_HOUR as int) == 0) by (nonlinear_arith)
        requires
            hour == boundary - boundary % (NANOS_PER_HOUR as int),
    ;
    assert((hour + NANOS_PER_HOUR) % (NANOS_PER_HOUR as int) == 0) by (nonlinear_arith)
        requires
            hour % (NANOS_PER_HOUR as int) == 0,
    ;
}

} // verus!
