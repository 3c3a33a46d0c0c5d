//! A JSON document model for the values that the business rules inspect:
//! shadow documents, configuration patches and persisted outbox envelopes.
use vstd::prelude::*;

verus! {

/// IEEE-754 bit pattern of negative zero.
pub const NEGATIVE_ZERO_BITS: u64 = 0x8000_0000_0000_0000u64;

/// A JSON number in one of its three stored forms. `Float` holds the IEEE-754
/// bit pattern of a finite double.
#[derive(Debug, Clone, Copy, PartialEq, Eq, Structural)]
pub enum JsonNumber {
    PosInt(u64),
    NegInt(i64),
    Float(u64),
}

/// The canonical form of a number: a non-negative `NegInt` is the same number
/// as the `PosInt` of that value, and the two zero doubles compare equal.
pub open spec fn number_view(n: JsonNumber) -> JsonNumber {
    match n {
        JsonNumber::NegInt(i) => if i >= 0 { JsonNumber::PosInt(i as u64) } else { n },
        JsonNumber::Float(b) => if b == NEGATIVE_ZERO_BITS { JsonNumber::Float(0) } else { n },
        _ => n,
    }
}

/// A JSON document. Object members are kept in insertion order; when a key
/// occurs more than once the last occurrence is the member's value.
#[derive(Debug)]
pub enum Json {
    Null,
    Bool(bool),
    Number(JsonNumber),
    Str(String),
    Array(Vec<Json>),
    Object(Vec<(String, Json)>),
}

/// The mathematical value of a JSON document: objects are maps from keys to
/// values, so two documents are equal exactly when they hold the same members.
pub enum JsonValue {
    Null,
    Bool(bool),
    Number(JsonNumber),
    Str(Seq<char>),
    Array(Seq<JsonValue>),
    Object(Map<Seq<char>, JsonValue>),
}

pub open spec fn json_view(j: Json) -> JsonValue
    decreases j,
{
    match j {
        Json::Null => JsonValue::Null,
        Json::Bool(b) => JsonValue::Bool(b),
        Json::Number(n) => JsonValue::Number(number_view(n)),
        Json::Str(s) => JsonValue::Str(s@),
        Json::Array(items) => JsonValue::Array(items_view(items@)),
        Json::Object(entries) => JsonValue::Object(entries_view(entries@)),
    }
}

pub open spec fn items_view(s: Seq<Json>) -> Seq<JsonValue>
    decreases s,
{
    if s.len() == 0 {
        Seq::empty()
    } else {
        items_view(s.subrange(0, s.len() - 1)).push(json_view(s[s.len() - 1]))
    }
}

pub open spec fn entries_view(s: Seq<(String, Json)>) -> Map<Seq<char>, JsonValue>
    decreases s,
{
    if s.len() == 0 {
        Map::empty()
    } else {
        entries_view(s.subrange(0, s.len() - 1)).insert(
            s[s.len() - 1].0@,
            json_view(s[s.len() - 1].1),
        )
    }
}


/// The key of the last member of `s`, counting only members before `end`,
/// whose key is `k`, if any.
pub open spec fn last_key_index(s: Seq<(String, Json)>, k: Seq<char>, i: int) -> bool {
    &&& 0 <= i < s.len()
    &&& s[i].0@ == k
    &&& forall|j: int| i < j < s.len() ==> s[j].0@ != k
}

pub proof fn lemma_items_view_push(s: Seq<Json>, e: Json)
    ensures
        items_view(s.push(e)) == items_view(s).push(json_view(e)),
{
    assert(s.push(e).subrange(0, s.len() as int) =~= s);
}

pub proof fn lemma_entries_view_push(s: Seq<(String, Json)>, e: (String, Json))
    ensures
        entries_view(s.push(e)) == entries_view(s).insert(e.0@, json_view(e.1)),
{
    assert(s.push(e).subrange(0, s.len() as int) =~= s);
}

pub proof fn lemma_items_view_index(s: Seq<Json>)
    ensures
        items_view(s).len() == s.len(),
        forall|i: int| 0 <= i < s.len() ==> #[trigger] items_view(s)[i] == json_view(s[i]),
    decreases s.len(),
{
    if s.len() > 0 {
        let t = s.subrange(0, s.len() - 1);
        lemma_items_view_index(t);
        assert forall|i: int| 0 <= i < s.len() implies #[trigger] items_view(s)[i] == json_view(
            s[i],
        ) by {
            if i < s.len() - 1 {
                assert(t[i] == s[i]);
            }
        }
    }
}

pub proof fn lemma_entries_view_lookup(s: Seq<(String, Json)>, k: Seq<char>)
    ensures
        entries_view(s).contains_key(k) <==> (exists|i: int| 0 <= i < s.len() && s[i].0@ == k),
        forall|i: int| #[trigger] last_key_index(s, k, i) ==> entries_view(s)[k] == json_view(s[i].1),
    decreases s.len(),
{
    if s.len() > 0 {
        let n = s.len() - 1;
        let t = s.subrange(0, n);
        lemma_entries_view_lookup(t, k);
        if s[n].0@ == k {
            assert(entries_view(s).contains_key(k));
            assert forall|i: int| #[trigger] last_key_index(s, k, i) implies entries_view(s)[k]
                == json_view(s[i].1) by {
                assert(i == n);
            }
        } else {
            assert((exists|i: int| 0 <= i < s.len() && s[i].0@ == k) ==> (exists|i: int|
                0 <= i < t.len() && t[i].0@ == k)) by {
                if exists|i: int| 0 <= i < s.len() && s[i].0@ == k {
                    let i = choose|i: int| 0 <= i < s.len() && s[i].0@ == k;
                    assert(t[i] == s[i]);
                }
            }
            assert((exists|i: int| 0 <= i < t.len() && t[i].0@ == k) ==> (exists|i: int|
                0 <= i < s.len() && s[i].0@ == k)) by {
                if exists|i: int| 0 <= i < t.len() && t[i].0@ == k {
                    let i = choose|i: int| 0 <= i < t.len() && t[i].0@ == k;
                    assert(t[i] == s[i]);
                }
            }
            assert forall|i: int| #[trigger] last_key_index(s, k, i) implies entries_view(s)[k]
                == json_view(s[i].1) by {
                assert(t[i] == s[i]);
                assert(last_key_index(t, k, i));
            }
        }
    }
}

proof fn lemma_map_equal(m1: Map<Seq<char>, JsonValue>, m2: Map<Seq<char>, JsonValue>)
    requires
        forall|k: Seq<char>| #[trigger] m1.dom().contains(k) ==> m2.dom().contains(k) && m2[k] == m1[k],
        forall|k: Seq<char>| #[trigger] m2.dom().contains(k) ==> m1.dom().contains(k),
    ensures
        m1 == m2,
{
    assert(m1.dom() =~= m2.dom());
    assert(m1 =~= m2);
}

/// Index of the last member of `entries` whose key is `key`.
pub fn object_find(entries: &Vec<(String, Json)>, key: &String) -> (r: Option<usize>)
    ensures
        r is None ==> forall|i: int| 0 <= i < entries@.len() ==> entries@[i].0@ != key@,
        r matches Some(i) ==> last_key_index(entries@, key@, i as int),
{
    let mut i: usize = entries.len();
    while i > 0
        invariant
            i <= entries@.len(),
            forall|j: int| i <= j < entries@.len() ==> entries@[j].0@ != key@,
        decreases i,
    {
        i = i - 1;
        if entries[i].0 == *key {
            return Some(i);
        }
    }
    None
}

/// Deep equality of JSON documents.
pub fn json_eq(a: &Json, b: &Json) -> (r: bool)
    ensures
        r == (json_view(*a) == json_view(*b)),
    decreases a,
{
    match (a, b) {
        (Json::Null, Json::Null) => true,
        (Json::Bool(x), Json::Bool(y)) => *x == *y,
        (Json::Number(x), Json::Number(y)) => number_eq(*x, *y),
        (Json::Str(x), Json::Str(y)) => *x == *y,
        (Json::Array(x), Json::Array(y)) => {
            proof {
                lemma_items_view_index(x@);
                lemma_items_view_index(y@);
            }
            if x.len() != y.len() {
                return false;
            }
            let mut i: usize = 0;
            while i < x.len()
                invariant
                    i <= x@.len(),
                    x@.len() == y@.len(),
                    *a == Json::Array(*x),
                    *b == Json::Array(*y),
                    items_view(x@).len() == x@.len(),
                    items_view(y@).len() == y@.len(),
                    forall|j: int| 0 <= j < x@.len() ==> #[trigger] items_view(x@)[j] == json_view(x@[j]),
                    forall|j: int| 0 <= j < y@.len() ==> #[trigger] items_view(y@)[j] == json_view(y@[j]),
                    forall|j: int| 0 <= j < i ==> json_view(#[trigger] x@[j]) == json_view(y@[j]),
                decreases x@.len() - i,
            {
                if !json_eq(&x[i], &y[i]) {
                    assert(items_view(x@)[i as int] != items_view(y@)[i as int]);
                    return false;
                }
                i = i + 1;
            }
            assert(items_view(x@) =~= items_view(y@));
            true
        },
        (Json::Object(x), Json::Object(y)) => {
            let mut i: usize = 0;
            while i < x.len()
                invariant
                    i <= x@.len(),
                    *a == Json::Object(*x),
                    *b == Json::Object(*y),
                    forall|j: int|
                        0 <= j < i ==> entries_view(y@).contains_key(#[trigger] x@[j].0@)
                            && entries_view(y@)[x@[j].0@] == entries_view(x@)[x@[j].0@],
                decreases x@.len() - i,
            {
                let key = &x[i].0;
                proof {
                    lemma_entries_view_lookup(x@, key@);
                    lemma_entries_view_lookup(y@, key@);
                }
                let ix = object_find(x, key);
                let iy = object_find(y, key);
                match (ix, iy) {
                    (Some(p), Some(q)) => {
                        if !json_eq(&x[p].1, &y[q].1) {
                            return false;
                        }
                    },
                    _ => {
                        return false;
                    },
                }
                i = i + 1;
            }
            let mut i: usize = 0;
            while i < y.len()
                invariant
                    i <= y@.len(),
                    *a == Json::Object(*x),
                    *b == Json::Object(*y),
                    forall|j: int|
                        0 <= j < x@.len() ==> entries_view(y@).contains_key(#[trigger] x@[j].0@)
                            && entries_view(y@)[x@[j].0@] == entries_view(x@)[x@[j].0@],
                    forall|j: int|
                        0 <= j < i ==> entries_view(x@).contains_key(#[trigger] y@[j].0@),
                decreases y@.len() - i,
            {
                let key = &y[i].0;
                proof {
                    lemma_entries_view_lookup(x@, key@);
                    lemma_entries_view_lookup(y@, key@);
                }
                if object_find(x, key).is_none() {
                    return false;
                }
                i = i + 1;
            }
            proof {
                assert forall|k: Seq<char>| #[trigger] entries_view(x@).dom().contains(k) implies entries_view(
                    y@,
                ).dom().contains(k) && entries_view(y@)[k] == entries_view(x@)[k] by {
                    lemma_entries_view_lookup(x@, k);
                    let j = choose|j: int| 0 <= j < x@.len() && x@[j].0@ == k;
                    assert(0 <= j < x@.len());
                    assert(entries_view(y@).contains_key(x@[j].0@));
                    assert(entries_view(y@)[x@[j].0@] == entries_view(x@)[x@[j].0@]);
                }
                assert forall|k: Seq<char>| #[trigger] entries_view(y@).dom().contains(k) implies entries_view(
                    x@,
                ).dom().contains(k) by {
                    lemma_entries_view_lookup(y@, k);
                    let j = choose|j: int| 0 <= j < y@.len() && y@[j].0@ == k;
                    assert(entries_view(x@).contains_key(y@[j].0@));
                }
                lemma_map_equal(entries_view(x@), entries_view(y@));
            }
            true
        },
        _ => false,
    }
}

/// Equality of numbers as JSON values.
pub fn number_eq(x: JsonNumber, y: JsonNumber) -> (r: bool)
    ensures
        r == (number_view(x) == number_view(y)),
{
    number_canonical(x) == number_canonical(y)
}

/// The canonical form of a number.
pub fn number_canonical(n: JsonNumber) -> (r: JsonNumber)
    ensures
        r == number_view(n),
{
    match n {
        JsonNumber::NegInt(i) => if i >= 0 { JsonNumber::PosInt(i as u64) } else { n },
        JsonNumber::Float(b) => if b == NEGATIVE_ZERO_BITS { JsonNumber::Float(0) } else { n },
        _ => n,
    }
}

/// A deep copy of a JSON document.
pub fn json_clone(j: &Json) -> (r: Json)
    ensures
        json_view(r) == json_view(*j),
    decreases j,
{
    match j {
        Json::Null => Json::Null,
        Json::Bool(b) => Json::Bool(*b),
        Json::Number(n) => Json::Number(*n),
        Json::Str(s) => Json::Str(s.clone()),
        Json::Array(items) => {
            let mut out: Vec<Json> = Vec::new();
            let mut i: usize = 0;
            while i < items.len()
                invariant
                    i <= items@.len(),
                    *j == Json::Array(*items),
                    items_view(out@) == items_view(items@.take(i as int)),
                decreases items@.len() - i,
            {
                proof {
                    assert(decreases_to!(*j => (*j)->Array_0));
                    assert(decreases_to!(*items => items@));
                    assert(decreases_to!(items@ => items@[i as int]));
                }
                let c = json_clone(&items[i]);
                proof {
                    lemma_items_view_push(out@, c);
                    lemma_items_view_push(items@.take(i as int), items@[i as int]);
                    assert(items@.take(i as int).push(items@[i as int]) =~= items@.take(i + 1));
                }
                out.push(c);
                i = i + 1;
            }
            assert(items@.take(items@.len() as int) =~= items@);
            Json::Array(out)
        },
        Json::Object(entries) => {
            let mut out: Vec<(String, Json)> = Vec::new();
            let mut i: usize = 0;
            while i < entries.len()
                invariant
                    i <= entries@.len(),
                    *j == Json::Object(*entries),
                    entries_view(out@) == entries_view(entries@.take(i as int)),
                decreases entries@.len() - i,
            {
                proof {
                    assert(decreases_to!(*j => (*j)->Object_0));
                    assert(decreases_to!(*entries => entries@));
                    assert(decreases_to!(entries@ => entries@[i as int]));
                    assert(decreases_to!(entries@[i as int] => entries@[i as int].1));
                }
                let e = (entries[i].0.clone(), json_clone(&entries[i].1));
                proof {
                    lemma_entries_view_push(out@, e);
                    lemma_entries_view_push(entries@.take(i as int), entries@[i as int]);
                    assert(entries@.take(i as int).push(entries@[i as int]) =~= entries@.take(
                        i + 1,
                    ));
                }
                out.push(e);
                i = i + 1;
            }
            assert(entries@.take(entries@.len() as int) =~= entries@);
            Json::Object(out)
        },
    }
}


/// The members of `entries` without the member named `key`.
pub fn object_remove(entries: &Vec<(String, Json)>, key: &String) -> (r: Vec<(String, Json)>)
    ensures
        entries_view(r@) == entries_view(entries@).remove(key@),
        forall|i: int| 0 <= i < r@.len() ==> r@[i].0@ != key@,
{
    let mut out: Vec<(String, Json)> = Vec::new();
    let mut i: usize = 0;
    while i < entries.len()
        invariant
            i <= entries@.len(),
            entries_view(out@) == entries_view(entries@.take(i as int)).remove(key@),
            forall|j: int| 0 <= j < out@.len() ==> out@[j].0@ != key@,
        decreases entries@.len() - i,
    {
        let ghost before = entries@.take(i as int);
        proof {
            lemma_entries_view_push(before, entries@[i as int]);
            assert(before.push(entries@[i as int]) =~= entries@.take(i + 1));
        }
        if entries[i].0 != *key {
            let e = (entries[i].0.clone(), json_clone(&entries[i].1));
            proof {
                lemma_entries_view_push(out@, e);
                assert(entries_view(out@.push(e)) =~= entries_view(entries@.take(i + 1)).remove(
                    key@,
                ));
            }
            out.push(e);
        } else {
            proof {
                assert(entries_view(out@) =~= entries_view(entries@.take(i + 1)).remove(key@));
            }
        }
        i = i + 1;
    }
    assert(entries@.take(entries@.len() as int) =~= entries@);
    out
}

/// The members of `entries` with `key` set to `value`, replacing any member
/// of that name.
pub fn object_insert(entries: &Vec<(String, Json)>, key: String, value: Json) -> (r: Vec<
    (String, Json),
>)
    ensures
        entries_view(r@) == entries_view(entries@).insert(key@, json_view(value)),
{
    let mut out = object_remove(entries, &key);
    let ghost removed = out@;
    let e = (key, value);
    proof {
        lemma_entries_view_push(removed, e);
        assert(entries_view(entries@).remove(e.0@).insert(e.0@, json_view(e.1)) =~= entries_view(
            entries@,
        ).insert(e.0@, json_view(e.1)));
    }
    out.push(e);
    out
}

/// The member named `key`, if any.
pub fn object_get<'a>(entries: &'a Vec<(String, Json)>, key: &String) -> (r: Option<&'a Json>)
    ensures
        r is None <==> !entries_view(entries@).dom().contains(key@),
        r matches Some(v) ==> entries_view(entries@).dom().contains(key@) && json_view(*v)
            == entries_view(entries@)[key@],
{
    proof {
        lemma_entries_view_lookup(entries@, key@);
    }
    match object_find(entries, key) {
        Some(i) => Some(&entries[i].1),
        None => None,
    }
}

} // verus!
