//! Rule records, host-owned rule policies, and the zone shapes that rules
//! evaluate geofences against.
use vstd::prelude::*;
use crate::error::ApplicationError;
use crate::json::{
    items_view, json_view, lemma_items_view_index, number_canonical, object_get, Json, JsonNumber,
    JsonValue,
};
use crate::text::str_equal;
use crate::zones::Zone;

verus! {

#[derive(Debug, Clone)]
pub struct RuleConditionRecord {
    pub id: String,
    pub field: String,
    pub operator: String,
    pub value: String,
    pub condition_group: i32,
    pub zone_id: Option<String>,
}

#[derive(Debug, Clone)]
pub struct RuleFilter {
    pub enabled: Option<bool>,
    pub trigger_type: Option<String>,
    pub target_type: Option<String>,
}

/// Host-owned URL parsing and literal-address policy; DNS is validated again at dispatch.
pub trait WebhookUrlPolicy {
    fn validate(&self, url: &str) -> Result<(), ApplicationError>;
}

/// Non-blocking notification after a committed rule mutation. Reload failure
/// cannot turn a successful database operation into an API failure.
pub trait RuleChangeNotifier {
    fn committed(&self);
}

// ------------------------------------------------------------ rule details

/// Whether the key at `i` is the first occurrence of its value in `keys`.
pub open spec fn first_occurrence(keys: Seq<Seq<char>>, i: int) -> bool {
    forall|j: int| 0 <= j < i ==> keys[j] != keys[i]
}

/// The values of `items` whose key is `key`, in order.
pub open spec fn items_with_key<T>(items: Seq<(String, T)>, key: Seq<char>) -> Seq<T>
    decreases items.len(),
{
    if items.len() == 0 {
        Seq::empty()
    } else {
        let rest = items_with_key(items.drop_last(), key);
        if items.last().0@ == key {
            rest.push(items.last().1)
        } else {
            rest
        }
    }
}

proof fn lemma_items_with_key_push<T>(s: Seq<(String, T)>, e: (String, T), key: Seq<char>)
    ensures
        items_with_key(s.push(e), key) == (if e.0@ == key {
            items_with_key(s, key).push(e.1)
        } else {
            items_with_key(s, key)
        }),
{
    assert(s.push(e).drop_last() =~= s);
}

/// Groups keyed items under their keys: the group of a key holds, in order,
/// the values whose key it is. A key that occurs again gets an empty group
/// (its values went to its first occurrence), and values whose key is not
/// listed are dropped.
pub fn group_by_key<T>(keys: &Vec<String>, items: Vec<(String, T)>) -> (r: Vec<Vec<T>>)
    ensures
        r@.len() == keys@.len(),
        forall|i: int|
            #![trigger r@[i]]
            0 <= i < keys@.len() ==> r@[i]@ == (if first_occurrence(
                keys@.map_values(|k: String| k@),
                i,
            ) {
                items_with_key(items@, keys@[i]@)
            } else {
                Seq::empty()
            }),
{
    let ghost kv = keys@.map_values(|k: String| k@);
    let ghost all = items@;
    let mut groups: Vec<Vec<T>> = Vec::new();
    let mut n: usize = 0;
    while n < keys.len()
        invariant
            n <= keys@.len(),
            groups@.len() == n,
            forall|i: int| #![trigger groups@[i]] 0 <= i < n ==> groups@[i]@ == Seq::<T>::empty(),
        decreases keys@.len() - n,
    {
        groups.push(Vec::new());
        n = n + 1;
    }
    let mut remaining = items;
    let ghost mut k: int = 0;
    proof {
        assert(all.take(0) =~= Seq::<(String, T)>::empty());
    }
    while remaining.len() > 0
        invariant
            0 <= k <= all.len(),
            remaining@ == all.skip(k),
            kv == keys@.map_values(|k: String| k@),
            groups@.len() == keys@.len(),
            forall|i: int|
                #![trigger groups@[i]]
                0 <= i < keys@.len() ==> groups@[i]@ == (if first_occurrence(kv, i) {
                    items_with_key(all.take(k), kv[i])
                } else {
                    Seq::empty()
                }),
        decreases remaining@.len(),
    {
        let entry = remaining.remove(0);
        proof {
            assert(entry == all[k]);
            assert(remaining@ =~= all.skip(k + 1));
            assert(all.take(k + 1) =~= all.take(k).push(entry));
        }
        let (key, value) = entry;
        let mut f: usize = 0;
        while f < keys.len()
            invariant
                f <= keys@.len(),
                kv == keys@.map_values(|k: String| k@),
                forall|j: int| 0 <= j < f ==> kv[j] != key@,
            ensures
                f <= keys@.len(),
                forall|j: int| 0 <= j < f ==> kv[j] != key@,
                f < keys@.len() ==> kv[f as int] == key@,
            decreases keys@.len() - f,
        {
            if str_equal(keys[f].as_str(), key.as_str()) {
                break;
            }
            f = f + 1;
        }
        let ghost before = groups@;
        let ghost prefix = all.take(k);
        let ghost grown = all.take(k + 1);
        proof {
            assert forall|i: int| 0 <= i < keys@.len() && i != f implies items_with_key(
                grown,
                #[trigger] kv[i],
            ) == items_with_key(prefix, kv[i]) || !first_occurrence(kv, i) by {
                lemma_items_with_key_push(prefix, (key, value), kv[i]);
                if first_occurrence(kv, i) && kv[i] == key@ {
                    assert(f < keys@.len());
                    if (f as int) < i {
                        assert(kv[f as int] == kv[i]);
                    }
                }
            }
        }
        if f < keys.len() {
            let mut group = groups.remove(f);
            proof {
                assert(group@ == before[f as int]@);
                assert(first_occurrence(kv, f as int));
                lemma_items_with_key_push(prefix, (key, value), kv[f as int]);
            }
            group.push(value);
            groups.insert(f, group);
            proof {
                assert forall|i: int| #![trigger groups@[i]] 0 <= i < keys@.len() implies groups@[i]@
                    == (if first_occurrence(kv, i) {
                    items_with_key(grown, kv[i])
                } else {
                    Seq::empty()
                }) by {
                    if i != f {
                        assert(groups@[i] == before[i]);
                    }
                }
            }
        } else {
            proof {
                assert forall|i: int| #![trigger groups@[i]] 0 <= i < keys@.len() implies groups@[i]@
                    == (if first_occurrence(kv, i) {
                    items_with_key(grown, kv[i])
                } else {
                    Seq::empty()
                }) by {
                    lemma_items_with_key_push(prefix, (key, value), kv[i]);
                }
            }
        }
        proof {
            k = k + 1;
        }
    }
    proof {
        assert(all.take(k) =~= all);
    }
    groups
}

// ------------------------------------------------------------ zone shapes

/// The geometry of a zone, with its coordinates as the JSON numbers stored.
#[derive(Debug)]
pub enum ZoneShape {
    Circle { center_lat: JsonNumber, center_lon: JsonNumber, radius_meters: JsonNumber },
    Polygon { points: Vec<(JsonNumber, JsonNumber)> },
}

pub enum ZoneShapeView {
    Circle(JsonNumber, JsonNumber, JsonNumber),
    Polygon(Seq<(JsonNumber, JsonNumber)>),
}

pub open spec fn shape_view(s: ZoneShape) -> ZoneShapeView {
    match s {
        ZoneShape::Circle { center_lat, center_lon, radius_meters } => ZoneShapeView::Circle(
            center_lat,
            center_lon,
            radius_meters,
        ),
        ZoneShape::Polygon { points } => ZoneShapeView::Polygon(points@),
    }
}

pub open spec fn json_number(v: JsonValue) -> Option<JsonNumber> {
    match v {
        JsonValue::Number(n) => Some(n),
        _ => None,
    }
}

/// The member `k` of an object value; other values have no members.
pub open spec fn json_member(v: JsonValue, k: Seq<char>) -> Option<JsonValue> {
    match v {
        JsonValue::Object(m) => if m.dom().contains(k) {
            Some(m[k])
        } else {
            None
        },
        _ => None,
    }
}

/// A coordinate pair: an array of exactly two numbers.
pub open spec fn coordinate_pair(v: JsonValue) -> Option<(JsonNumber, JsonNumber)> {
    match v {
        JsonValue::Array(items) => if items.len() == 2 && json_number(items[0]) is Some
            && json_number(items[1]) is Some {
            Some((json_number(items[0])->0, json_number(items[1])->0))
        } else {
            None
        },
        _ => None,
    }
}

/// The shape a zone's stored geometry describes. A `circle` needs a `center`
/// coordinate pair and a numeric `radius_meters`; a `polygon` needs `points`,
/// an array of coordinate pairs (possibly empty). Any other type, or a
/// geometry missing one of these, describes no shape.
pub open spec fn zone_shape(geometry_type: Seq<char>, g: JsonValue) -> Option<ZoneShapeView> {
    if geometry_type == "circle"@ {
        match (
            json_member(g, "center"@),
            json_member(g, "radius_meters"@),
        ) {
            (Some(c), Some(r)) => match (coordinate_pair(c), json_number(r)) {
                (Some((lat, lon)), Some(radius)) => Some(ZoneShapeView::Circle(lat, lon, radius)),
                _ => None,
            },
            _ => None,
        }
    } else if geometry_type == "polygon"@ {
        match json_member(g, "points"@) {
            Some(JsonValue::Array(ps)) => if forall|i: int|
                0 <= i < ps.len() ==> #[trigger] coordinate_pair(ps[i]) is Some {
                Some(ZoneShapeView::Polygon(Seq::new(ps.len(), |i: int| coordinate_pair(ps[i])->0)))
            } else {
                None
            },
            _ => None,
        }
    } else {
        None
    }
}

fn number_of(j: &Json) -> (r: Option<JsonNumber>)
    ensures
        r == json_number(json_view(*j)),
{
    match j {
        Json::Number(n) => Some(number_canonical(*n)),
        _ => None,
    }
}

fn pair_of(j: &Json) -> (r: Option<(JsonNumber, JsonNumber)>)
    ensures
        r == coordinate_pair(json_view(*j)),
{
    match j {
        Json::Array(items) => {
            proof {
                lemma_items_view_index(items@);
            }
            if items.len() != 2 {
                return None;
            }
            match (number_of(&items[0]), number_of(&items[1])) {
                (Some(a), Some(b)) => Some((a, b)),
                _ => None,
            }
        },
        _ => None,
    }
}

fn member<'a>(j: &'a Json, key: &str) -> (r: Option<&'a Json>)
    ensures
        match r {
            Some(v) => json_member(json_view(*j), key@) == Some(json_view(*v)),
            None => json_member(json_view(*j), key@) is None,
        },
{
    match j {
        Json::Object(entries) => object_get(entries, &key.to_owned()),
        _ => None,
    }
}

/// Parses the shape of a zone from its geometry type and stored geometry.
pub fn parse_zone_geometry(geometry_type: &str, geometry_json: &Json) -> (r: Option<ZoneShape>)
    ensures
        match r {
            Some(s) => zone_shape(geometry_type@, json_view(*geometry_json)) == Some(shape_view(s)),
            None => zone_shape(geometry_type@, json_view(*geometry_json)) is None,
        },
{
    proof {
        reveal_strlit("circle");
        reveal_strlit("polygon");
    }
    if str_equal(geometry_type, "circle") {
        let center = match member(geometry_json, "center") {
            Some(c) => c,
            None => return None,
        };
        let radius = match member(geometry_json, "radius_meters") {
            Some(r) => r,
            None => return None,
        };
        match (pair_of(center), number_of(radius)) {
            (Some((lat, lon)), Some(radius_meters)) => Some(
                ZoneShape::Circle { center_lat: lat, center_lon: lon, radius_meters },
            ),
            _ => None,
        }
    } else if str_equal(geometry_type, "polygon") {
        let points_json = match member(geometry_json, "points") {
            Some(p) => p,
            None => return None,
        };
        let items = match points_json {
            Json::Array(items) => items,
            _ => return None,
        };
        let ghost ps = items_view(items@);
        proof {
            lemma_items_view_index(items@);
        }
        let mut points: Vec<(JsonNumber, JsonNumber)> = Vec::new();
        let mut i: usize = 0;
        while i < items.len()
            invariant
                geometry_type@ != "circle"@,
                geometry_type@ == "polygon"@,
                json_member(json_view(*geometry_json), "points"@) == Some(JsonValue::Array(ps)),
                i <= items@.len(),
                ps == items_view(items@),
                ps.len() == items@.len(),
                forall|j: int| 0 <= j < items@.len() ==> #[trigger] ps[j] == json_view(items@[j]),
                points@.len() == i,
                forall|j: int| 0 <= j < i ==> coordinate_pair(#[trigger] ps[j]) is Some,
                forall|j: int| 0 <= j < i ==> #[trigger] points@[j] == coordinate_pair(ps[j])->0,
            decreases items@.len() - i,
        {
            match pair_of(&items[i]) {
                Some(p) => {
                    points.push(p);
                },
                None => {
                    assert(coordinate_pair(ps[i as int]) is None);
                    assert(!(forall|j: int|
                        0 <= j < ps.len() ==> #[trigger] coordinate_pair(ps[j]) is Some));
                    return None;
                },
            }
            i = i + 1;
        }
        proof {
            assert(points@ =~= Seq::new(ps.len(), |j: int| coordinate_pair(ps[j])->0));
        }
        Some(ZoneShape::Polygon { points })
    } else {
        None
    }
}

/// A zone as rule evaluation sees it.
#[derive(Debug)]
pub struct ZoneSnapshot {
    pub id: String,
    pub name: String,
    pub shape: ZoneShape,
}

/// The zones whose geometry describes a shape, in order; the others are left out.
pub open spec fn snapshot_zones(zones: Seq<Zone>) -> Seq<(Seq<char>, Seq<char>, ZoneShapeView)>
    decreases zones.len(),
{
    if zones.len() == 0 {
        Seq::empty()
    } else {
        let z = zones.last();
        let rest = snapshot_zones(zones.drop_last());
        match zone_shape(z.geometry_type@, json_view(z.geometry_json)) {
            Some(s) => rest.push((z.id@, z.name@, s)),
            None => rest,
        }
    }
}

/// The zone snapshots that rule evaluation is given: every zone whose
/// geometry parses, keyed by its identifier (a later zone with the same
/// identifier replaces an earlier one).
pub fn zone_snapshots(zones: Vec<Zone>) -> (r: Vec<ZoneSnapshot>)
    ensures
        r@.map_values(|z: ZoneSnapshot| (z.id@, z.name@, shape_view(z.shape))) == snapshot_zones(zones@),
{
    let ghost all = zones@;
    let mut out: Vec<ZoneSnapshot> = Vec::new();
    let mut remaining = zones;
    let ghost mut k: int = 0;
    proof {
        assert(all.take(0) =~= Seq::<Zone>::empty());
        assert(out@.map_values(|z: ZoneSnapshot| (z.id@, z.name@, shape_view(z.shape))) =~= Seq::empty());
    }
    while remaining.len() > 0
        invariant
            0 <= k <= all.len(),
            remaining@ == all.skip(k),
            out@.map_values(|z: ZoneSnapshot| (z.id@, z.name@, shape_view(z.shape))) == snapshot_zones(
                all.take(k),
            ),
        decreases remaining@.len(),
    {
        let zone = remaining.remove(0);
        proof {
            assert(zone == all[k]);
            assert(all.take(k + 1).drop_last() =~= all.take(k));
            assert(all.take(k + 1).last() == all[k]);
            assert(remaining@ =~= all.skip(k + 1));
        }
        match parse_zone_geometry(zone.geometry_type.as_str(), &zone.geometry_json) {
            Some(shape) => {
                let ghost before = out@;
                let snapshot = ZoneSnapshot { id: zone.id, name: zone.name, shape };
                out.push(snapshot);
                proof {
                    assert(out@.map_values(|z: ZoneSnapshot| (z.id@, z.name@, shape_view(z.shape)))
                        =~= before.map_values(|z: ZoneSnapshot| (z.id@, z.name@, shape_view(z.shape))).push(
                        (all[k].id@, all[k].name@, zone_shape(all[k].geometry_type@, json_view(all[k].geometry_json))->0),
                    ));
                }
            },
            None => {},
        }
        proof {
            k = k + 1;
        }
    }
    proof {
        assert(all.take(k) =~= all);
    }
    out
}

} // verus!