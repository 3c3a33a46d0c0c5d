//! Fleet records and the device counts shown beside them.
use vstd::prelude::*;

verus! {

#[derive(Debug, Clone, PartialEq, Eq)]
pub struct FleetRecord {
    pub id: i32,
    pub name: String,
}

#[derive(Debug, Clone, PartialEq, Eq)]
pub struct FleetSummary {
    pub fleet: FleetRecord,
    pub device_count: i64,
}

#[derive(Debug, Clone, PartialEq, Eq)]
pub struct FleetList {
    pub records: Vec<FleetSummary>,
    pub total: i64,
}

#[derive(Debug, Clone, PartialEq, Eq)]
pub struct CreateFleetRecord {
    pub name: String,
}

/// The number of devices in a fleet, from per-fleet counts: the last count
/// reported for that fleet, or 0 when none is. Devices in no fleet are
/// counted under `None` and never match a fleet.
pub open spec fn fleet_device_count(counts: Seq<(Option<i32>, i64)>, fleet_id: i32) -> i64
    decreases counts.len(),
{
    if counts.len() == 0 {
        0
    } else if counts.last().0 == Some(fleet_id) {
        counts.last().1
    } else {
        fleet_device_count(counts.drop_last(), fleet_id)
    }
}

/// Law: a fleet's device count is the count of the entry that names it,
/// wherever that entry sits, when exactly one entry names it; it is 0 when
/// no entry names the fleet.
pub proof fn lemma_fleet_device_count_finds_its_entry(
    counts: Seq<(Option<i32>, i64)>,
    fleet_id: i32,
    i: int,
)
    requires
        0 <= i < counts.len(),
        counts[i].0 == Some(fleet_id),
        forall|j: int| 0 <= j < counts.len() && j != i ==> counts[j].0 != Some(fleet_id),
    ensures
        fleet_device_count(counts, fleet_id) == counts[i].1,
    decreases counts.len(),
{
    if i < counts.len() - 1 {
        let rest = counts.drop_last();
        assert(counts.last() == counts[counts.len() - 1]);
        assert forall|j: int| 0 <= j < rest.len() && j != i implies rest[j].0 != Some(fleet_id) by {
            assert(rest[j] == counts[j]);
        }
        lemma_fleet_device_count_finds_its_entry(rest, fleet_id, i);
    }
}

/// Law: a fleet that no entry names has no devices.
pub proof fn lemma_fleet_device_count_absent(counts: Seq<(Option<i32>, i64)>, fleet_id: i32)
    requires
        forall|j: int| 0 <= j < counts.len() ==> counts[j].0 != Some(fleet_id),
    ensures
        fleet_device_count(counts, fleet_id) == 0,
    decreases counts.len(),
{
    if counts.len() > 0 {
        let rest = counts.drop_last();
        assert(counts.last() == counts[counts.len() - 1]);
        assert forall|j: int| 0 <= j < rest.len() implies rest[j].0 != Some(fleet_id) by {
            assert(rest[j] == counts[j]);
        }
        lemma_fleet_device_count_absent(rest, fleet_id);
    }
}

fn device_count_of(counts: &Vec<(Option<i32>, i64)>, fleet_id: i32) -> (r: i64)
    ensures
        r == fleet_device_count(counts@, fleet_id),
{
    let mut i: usize = counts.len();
    proof {
        assert(counts@.take(counts@.len() as int) =~= counts@);
    }
    while i > 0
        invariant
            i <= counts@.len(),
            fleet_device_count(counts@, fleet_id) == fleet_device_count(counts@.take(i as int), fleet_id),
        decreases i,
    {
        proof {
            assert(counts@.take(i as int).drop_last() =~= counts@.take(i - 1));
            assert(counts@.take(i as int).last() == counts@[i - 1]);
        }
        if counts[i - 1].0 == Some(fleet_id) {
            return counts[i - 1].1;
        }
        i = i - 1;
    }
    0
}

/// Pairs each fleet of a page with its device count.
pub fn fleet_summaries(rows: Vec<FleetRecord>, counts: &Vec<(Option<i32>, i64)>) -> (r: Vec<
    FleetSummary,
>)
    ensures
        r@.len() == rows@.len(),
        forall|i: int|
            0 <= i < r@.len() ==> #[trigger] r@[i].fleet == rows@[i] && r@[i].device_count
                == fleet_device_count(counts@, rows@[i].id),
{
    let ghost all = rows@;
    let mut out: Vec<FleetSummary> = Vec::new();
    let mut remaining = rows;
    let ghost mut k: int = 0;
    while remaining.len() > 0
        invariant
            0 <= k <= all.len(),
            remaining@ == all.skip(k),
            out@.len() == k,
            forall|i: int|
                #![trigger out@[i]]
                0 <= i < k ==> out@[i].fleet == all[i] && out@[i].device_count
                    == fleet_device_count(counts@, all[i].id),
        decreases remaining@.len(),
    {
        let fleet = remaining.remove(0);
        proof {
            assert(fleet == all[k]);
            assert(remaining@ =~= all.skip(k + 1));
        }
        let device_count = device_count_of(counts, fleet.id);
        let ghost old_out = out@;
        out.push(FleetSummary { fleet, device_count });
        proof {
            assert forall|i: int| #![trigger out@[i]] 0 <= i < k + 1 implies out@[i].fleet == all[i]
                && out@[i].device_count == fleet_device_count(counts@, all[i].id) by {
                if i < k {
                    assert(out@[i] == old_out[i]);
                }
            }
            k = k + 1;
        }
    }
    out
}

} // verus!
