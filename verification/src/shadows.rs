//! Device shadows: desired and reported state and the delta between them.
use vstd::prelude::*;
use crate::error::PersistenceError;
use crate::json::{
    entries_view, json_clone, json_eq, json_view, lemma_entries_view_lookup, lemma_entries_view_push,
    object_get, object_insert, object_remove, Json, JsonValue,
};
use chrono::NaiveDateTime;

verus! {

/// The stored shadow of one device.
pub struct ShadowRecord {
    pub device_id: String,
    pub desired: Json,
    pub reported: Json,
    pub delta: Json,
    pub version: i32,
    /// UTC instant of the last mutation.
    pub updated_at: NaiveDateTime,
}

/// Why a shadow mutation was refused.
#[derive(Debug, Clone, Copy, PartialEq, Eq, Structural)]
pub enum ShadowMutationError {
    VersionOverflow,
}

impl ShadowMutationError {
    /// The human-readable message of this failure.
    pub fn message(&self) -> (s: &'static str)
        ensures
            s@ == "shadow version overflow"@,
    {
        "shadow version overflow"
    }
}

/// The members of an object value, and no members for any other value.
pub open spec fn members(v: JsonValue) -> Map<Seq<char>, JsonValue> {
    match v {
        JsonValue::Object(m) => m,
        _ => Map::empty(),
    }
}

/// Top-level merge of a patch into an existing object: a member whose patch
/// value is `null` is removed, any other patch member is inserted or replaced,
/// and members the patch does not name are kept.
pub open spec fn merged(
    existing: Map<Seq<char>, JsonValue>,
    patch: Map<Seq<char>, JsonValue>,
) -> Map<Seq<char>, JsonValue> {
    Map::new(
        |k: Seq<char>|
            if patch.dom().contains(k) {
                patch[k] != JsonValue::Null
            } else {
                existing.dom().contains(k)
            },
        |k: Seq<char>|
            if patch.dom().contains(k) {
                patch[k]
            } else {
                existing[k]
            },
    )
}

/// The desired members that the reported state lacks or holds with another value.
pub open spec fn differing(
    desired: Map<Seq<char>, JsonValue>,
    reported: Map<Seq<char>, JsonValue>,
) -> Map<Seq<char>, JsonValue> {
    Map::new(
        |k: Seq<char>|
            desired.dom().contains(k) && !(reported.dom().contains(k) && reported[k]
                == desired[k]),
        |k: Seq<char>| desired[k],
    )
}

/// The delta of desired over reported state. Two objects give the differing
/// desired members; a desired object against a non-object is the whole desired
/// object; a non-object desired state gives the empty object.
pub open spec fn delta_of(desired: JsonValue, reported: JsonValue) -> JsonValue {
    match desired {
        JsonValue::Object(d) => match reported {
            JsonValue::Object(r) => JsonValue::Object(differing(d, r)),
            _ => desired,
        },
        _ => JsonValue::Object(Map::empty()),
    }
}

/// An object value kept as it is; any other value replaced by the empty object.
pub open spec fn object_or_empty_view(v: JsonValue) -> JsonValue {
    JsonValue::Object(members(v))
}

proof fn lemma_merged_step(
    existing: Map<Seq<char>, JsonValue>,
    patch: Map<Seq<char>, JsonValue>,
    k: Seq<char>,
    v: JsonValue,
)
    ensures
        v == JsonValue::Null ==> merged(existing, patch.insert(k, v)) == merged(
            existing,
            patch,
        ).remove(k),
        v != JsonValue::Null ==> merged(existing, patch.insert(k, v)) == merged(
            existing,
            patch,
        ).insert(k, v),
{
    if v == JsonValue::Null {
        assert(merged(existing, patch.insert(k, v)) =~= merged(existing, patch).remove(k));
    } else {
        assert(merged(existing, patch.insert(k, v)) =~= merged(existing, patch).insert(k, v));
    }
}

/// Merges a patch object into an existing value: `null` patch members remove
/// the member, other patch members are upserted. A non-object existing value
/// is treated as the empty object.
pub fn merge_json(existing: Json, patch: &Vec<(String, Json)>) -> (r: Json)
    ensures
        json_view(r) == JsonValue::Object(merged(members(json_view(existing)), entries_view(patch@))),
{
    let ghost start = members(json_view(existing));
    let mut obj: Vec<(String, Json)> = match existing {
        Json::Object(m) => m,
        _ => Vec::new(),
    };
    proof {
        assert(entries_view(patch@.take(0)) =~= Map::empty());
        assert(merged(start, Map::empty()) =~= start);
    }
    let mut i: usize = 0;
    while i < patch.len()
        invariant
            i <= patch@.len(),
            entries_view(obj@) == merged(start, entries_view(patch@.take(i as int))),
        decreases patch@.len() - i,
    {
        let ghost before = patch@.take(i as int);
        proof {
            lemma_entries_view_push(before, patch@[i as int]);
            assert(before.push(patch@[i as int]) =~= patch@.take(i + 1));
            lemma_merged_step(
                start,
                entries_view(before),
                patch@[i as int].0@,
                json_view(patch@[i as int].1),
            );
        }
        let is_null = match &patch[i].1 {
            Json::Null => true,
            _ => false,
        };
        if is_null {
            obj = object_remove(&obj, &patch[i].0);
        } else {
            obj = object_insert(&obj, patch[i].0.clone(), json_clone(&patch[i].1));
        }
        i = i + 1;
    }
    assert(patch@.take(patch@.len() as int) =~= patch@);
    Json::Object(obj)
}

/// The delta between desired and reported state: the desired members that
/// differ from, or are missing in, the reported state.
pub fn compute_delta(desired: &Json, reported: &Json) -> (r: Json)
    ensures
        json_view(r) == delta_of(json_view(*desired), json_view(*reported)),
{
    match desired {
        Json::Object(d) => match reported {
            Json::Object(rep) => {
                let ghost dm = entries_view(d@);
                let ghost rm = entries_view(rep@);
                let mut out: Vec<(String, Json)> = Vec::new();
                proof {
                    assert(entries_view(out@) =~= Map::<Seq<char>, JsonValue>::empty());
                    assert(entries_view(d@.take(0)) =~= Map::empty());
                    assert(entries_view(out@) =~= differing(dm, rm).restrict(
                        entries_view(d@.take(0)).dom(),
                    ));
                }
                let mut i: usize = 0;
                while i < d.len()
                    invariant
                        i <= d@.len(),
                        dm == entries_view(d@),
                        rm == entries_view(rep@),
                        entries_view(out@) == differing(dm, rm).restrict(
                            entries_view(d@.take(i as int)).dom(),
                        ),
                    decreases d@.len() - i,
                {
                    let key = &d[i].0;
                    let ghost before = d@.take(i as int);
                    proof {
                        lemma_entries_view_push(before, d@[i as int]);
                        assert(before.push(d@[i as int]) =~= d@.take(i + 1));
                        lemma_entries_view_lookup(d@, key@);
                    }
                    let dv = object_get(d, key);
                    let rv = object_get(rep, key);
                    let same = match (dv, rv) {
                        (Some(x), Some(y)) => json_eq(x, y),
                        _ => false,
                    };
                    let ghost next_dom = entries_view(d@.take(i + 1)).dom();
                    if !same {
                        match dv {
                            Some(x) => {
                                out = object_insert(&out, key.clone(), json_clone(x));
                            },
                            None => {},
                        }
                        proof {
                            assert(entries_view(out@) =~= differing(dm, rm).restrict(next_dom));
                        }
                    } else {
                        proof {
                            assert(entries_view(out@) =~= differing(dm, rm).restrict(next_dom));
                        }
                    }
                    i = i + 1;
                }
                proof {
                    assert(d@.take(d@.len() as int) =~= d@);
                    assert(differing(dm, rm).restrict(dm.dom()) =~= differing(dm, rm));
                }
                Json::Object(out)
            },
            _ => json_clone(desired),
        },
        _ => Json::Object(Vec::new()),
    }
}

/// The value if it is an object, the empty object otherwise.
pub fn object_or_empty(value: Json) -> (r: Json)
    ensures
        json_view(r) == object_or_empty_view(json_view(value)),
{
    match value {
        Json::Object(m) => Json::Object(m),
        _ => {
            let r = Json::Object(Vec::new());
            assert(entries_view(Seq::<(String, Json)>::empty()) =~= Map::empty());
            r
        },
    }
}

/// The version after one more mutation.
pub fn next_version(version: i32) -> (r: Result<i32, ShadowMutationError>)
    ensures
        version < i32::MAX ==> r == Ok::<i32, ShadowMutationError>((version + 1) as i32),
        version == i32::MAX ==> r == Err::<i32, ShadowMutationError>(
            ShadowMutationError::VersionOverflow,
        ),
{
    match version.checked_add(1) {
        Some(v) => Ok(v),
        None => Err(ShadowMutationError::VersionOverflow),
    }
}


/// The shadow after applying a patch to its desired state at `updated_at`.
pub open spec fn desired_patched(
    shadow: ShadowRecord,
    patch: Map<Seq<char>, JsonValue>,
    r: ShadowRecord,
    updated_at: NaiveDateTime,
) -> bool {
    let desired = JsonValue::Object(merged(members(json_view(shadow.desired)), patch));
    let reported = object_or_empty_view(json_view(shadow.reported));
    &&& r.device_id == shadow.device_id
    &&& json_view(r.desired) == desired
    &&& json_view(r.reported) == reported
    &&& json_view(r.delta) == delta_of(desired, reported)
    &&& r.version == shadow.version + 1
    &&& r.updated_at == updated_at
}

/// The shadow after applying a patch to its reported state at `updated_at`.
pub open spec fn reported_patched(
    shadow: ShadowRecord,
    patch: Map<Seq<char>, JsonValue>,
    r: ShadowRecord,
    updated_at: NaiveDateTime,
) -> bool {
    let desired = object_or_empty_view(json_view(shadow.desired));
    let reported = JsonValue::Object(merged(members(json_view(shadow.reported)), patch));
    &&& r.device_id == shadow.device_id
    &&& json_view(r.desired) == desired
    &&& json_view(r.reported) == reported
    &&& json_view(r.delta) == delta_of(desired, reported)
    &&& r.version == shadow.version + 1
    &&& r.updated_at == updated_at
}

/// Merges `patch` into the desired state, recomputes the delta and advances
/// the version. A non-object desired or reported state counts as empty.
pub fn apply_desired_patch(
    shadow: ShadowRecord,
    patch: &Vec<(String, Json)>,
    updated_at: NaiveDateTime,
) -> (r: Result<ShadowRecord, ShadowMutationError>)
    ensures
        shadow.version == i32::MAX <==> r is Err,
        r matches Err(e) ==> e == ShadowMutationError::VersionOverflow,
        r matches Ok(s) ==> desired_patched(shadow, entries_view(patch@), s, updated_at),
{
    let ShadowRecord { device_id, desired, reported, delta: _, version, updated_at: _ } = shadow;
    let desired = merge_json(object_or_empty(desired), patch);
    let reported = object_or_empty(reported);
    let delta = compute_delta(&desired, &reported);
    let version = next_version(version)?;
    Ok(ShadowRecord { device_id, desired, reported, delta, version, updated_at })
}

/// Merges `patch` into the reported state, recomputes the delta and advances
/// the version. A non-object desired or reported state counts as empty.
pub fn apply_reported_patch(
    shadow: ShadowRecord,
    patch: &Vec<(String, Json)>,
    updated_at: NaiveDateTime,
) -> (r: Result<ShadowRecord, ShadowMutationError>)
    ensures
        shadow.version == i32::MAX <==> r is Err,
        r matches Err(e) ==> e == ShadowMutationError::VersionOverflow,
        r matches Ok(s) ==> reported_patched(shadow, entries_view(patch@), s, updated_at),
{
    let ShadowRecord { device_id, desired, reported, delta: _, version, updated_at: _ } = shadow;
    let desired = object_or_empty(desired);
    let reported = merge_json(object_or_empty(reported), patch);
    let delta = compute_delta(&desired, &reported);
    let version = next_version(version)?;
    Ok(ShadowRecord { device_id, desired, reported, delta, version, updated_at })
}

/// Clears desired, reported and delta state and advances the version.
pub fn reset_shadow(shadow: ShadowRecord, updated_at: NaiveDateTime) -> (r: Result<
    ShadowRecord,
    ShadowMutationError,
>)
    ensures
        shadow.version == i32::MAX <==> r is Err,
        r matches Err(e) ==> e == ShadowMutationError::VersionOverflow,
        r matches Ok(s) ==> {
            &&& s.device_id == shadow.device_id
            &&& json_view(s.desired) == JsonValue::Object(Map::empty())
            &&& json_view(s.reported) == JsonValue::Object(Map::empty())
            &&& json_view(s.delta) == JsonValue::Object(Map::empty())
            &&& s.version == shadow.version + 1
            &&& s.updated_at == updated_at
        },
{
    let ShadowRecord { device_id, desired: _, reported: _, delta: _, version, updated_at: _ } =
        shadow;
    let version = next_version(version)?;
    proof {
        assert(entries_view(Seq::<(String, Json)>::empty()) =~= Map::empty());
    }
    Ok(
        ShadowRecord {
            device_id,
            desired: Json::Object(Vec::new()),
            reported: Json::Object(Vec::new()),
            delta: Json::Object(Vec::new()),
            version,
            updated_at,
        },
    )
}

/// A change requested of a stored shadow.
pub enum ShadowMutation {
    /// Merge a patch into the desired state.
    Desired(Vec<(String, Json)>),
    /// Merge a patch into the reported state.
    Reported(Vec<(String, Json)>),
    /// Clear every document.
    Reset,
}

/// Applies a mutation to the shadow read under its row lock. A device without
/// a shadow yields `None`; a refused mutation is corrupt data carrying the
/// refusal's message; otherwise the mutated shadow is returned for storing.
pub fn mutate_shadow_record(
    stored: Option<ShadowRecord>,
    mutation: ShadowMutation,
    updated_at: NaiveDateTime,
) -> (r: Result<Option<ShadowRecord>, PersistenceError>)
    ensures
        stored is None ==> r matches Ok(None),
        stored matches Some(shadow) ==> {
            &&& (shadow.version == i32::MAX <==> r is Err)
            &&& (r matches Err(e) ==> e is CorruptData && e->CorruptData_0@
                == "shadow version overflow"@)
            &&& (r matches Ok(Some(s)) ==> match mutation {
                ShadowMutation::Desired(p) => desired_patched(shadow, entries_view(p@), s, updated_at),
                ShadowMutation::Reported(p) => reported_patched(
                    shadow,
                    entries_view(p@),
                    s,
                    updated_at,
                ),
                ShadowMutation::Reset => {
                    &&& s.device_id == shadow.device_id
                    &&& json_view(s.desired) == JsonValue::Object(Map::empty())
                    &&& json_view(s.reported) == JsonValue::Object(Map::empty())
                    &&& json_view(s.delta) == JsonValue::Object(Map::empty())
                    &&& s.version == shadow.version + 1
                    &&& s.updated_at == updated_at
                },
            })
            &&& !(r matches Ok(None))
        },
{
    let shadow = match stored {
        Some(s) => s,
        None => return Ok(None),
    };
    let result = match mutation {
        ShadowMutation::Desired(patch) => apply_desired_patch(shadow, &patch, updated_at),
        ShadowMutation::Reported(patch) => apply_reported_patch(shadow, &patch, updated_at),
        ShadowMutation::Reset => reset_shadow(shadow, updated_at),
    };
    match result {
        Ok(s) => Ok(Some(s)),
        Err(e) => Err(PersistenceError::CorruptData(e.message().to_owned())),
    }
}

/// Law: merging a patch removes the members it sets to `null`, sets every
/// other member it names to the patch's value, and keeps every member it
/// does not name.
pub proof fn lemma_merge_applies_patch(
    existing: Map<Seq<char>, JsonValue>,
    patch: Map<Seq<char>, JsonValue>,
    k: Seq<char>,
)
    ensures
        patch.dom().contains(k) && patch[k] == JsonValue::Null ==> !merged(existing, patch).dom().contains(k),
        patch.dom().contains(k) && patch[k] != JsonValue::Null ==> merged(existing, patch).dom().contains(k)
            && merged(existing, patch)[k] == patch[k],
        !patch.dom().contains(k) ==> (merged(existing, patch).dom().contains(k) <==> existing.dom().contains(k)),
        !patch.dom().contains(k) && existing.dom().contains(k) ==> merged(existing, patch)[k] == existing[k],
{
}

/// Law: applying the same patch twice leaves the same members as applying it once.
pub proof fn lemma_merge_idempotent(
    existing: Map<Seq<char>, JsonValue>,
    patch: Map<Seq<char>, JsonValue>,
)
    ensures
        merged(merged(existing, patch), patch) == merged(existing, patch),
{
    assert(merged(merged(existing, patch), patch) =~= merged(existing, patch));
}

/// Law: once the reported state has received every desired member (none of
/// them `null`), the delta is empty.
pub proof fn lemma_reporting_desired_clears_delta(
    reported: Map<Seq<char>, JsonValue>,
    desired: Map<Seq<char>, JsonValue>,
)
    requires
        forall|k: Seq<char>| #[trigger] desired.dom().contains(k) ==> desired[k] != JsonValue::Null,
    ensures
        delta_of(JsonValue::Object(desired), JsonValue::Object(merged(reported, desired)))
            == JsonValue::Object(Map::empty()),
{
    assert(differing(desired, merged(reported, desired)) =~= Map::empty());
}

/// Law: between two objects, the delta holds a desired member, with its
/// desired value, exactly when the reported state lacks it or holds a value
/// that is not deeply equal to it.
pub proof fn lemma_delta_holds_every_difference(
    desired: Map<Seq<char>, JsonValue>,
    reported: Map<Seq<char>, JsonValue>,
    k: Seq<char>,
)
    ensures
        members(delta_of(JsonValue::Object(desired), JsonValue::Object(reported))).dom().contains(k)
            <==> (desired.dom().contains(k) && !(reported.dom().contains(k) && reported[k]
            == desired[k])),
        desired.dom().contains(k) && !(reported.dom().contains(k) && reported[k] == desired[k])
            ==> members(delta_of(JsonValue::Object(desired), JsonValue::Object(reported)))[k]
            == desired[k],
{
}

/// Law: the delta names only desired members, each with its desired value.
pub proof fn lemma_delta_within_desired(
    desired: Map<Seq<char>, JsonValue>,
    reported: Map<Seq<char>, JsonValue>,
    k: Seq<char>,
)
    requires
        differing(desired, reported).dom().contains(k),
    ensures
        desired.dom().contains(k),
        differing(desired, reported)[k] == desired[k],
        !(reported.dom().contains(k) && reported[k] == desired[k]),
{
}

} // verus!
