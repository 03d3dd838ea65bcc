//! The library's own JSON value, its mathematical view, and the lookups the
//! normalizer is built from.

use vstd::prelude::*;

verus! {

/// A JSON document as the library handles it. Numbers are exact decimal
/// fixed-point values held as a count of millionths.
#[derive(Debug)]
pub enum JsonValue {
    Null,
    Bool(bool),
    /// A number, in millionths (1.5 is held as 1_500_000).
    Number(i128),
    Str(String),
    Array(Vec<JsonValue>),
    Object(Vec<(String, JsonValue)>),
}

/// The mathematical view of a JSON value.
pub enum Json {
    Null,
    Bool(bool),
    Number(int),
    Str(Seq<char>),
    Array(Seq<Json>),
    Object(Seq<(Seq<char>, Json)>),
}

/// The number of millionths in one unit.
pub const UNIT: i128 = 1_000_000;

pub open spec fn json_of(v: JsonValue) -> Json
    decreases v,
{
    match v {
        JsonValue::Null => Json::Null,
        JsonValue::Bool(b) => Json::Bool(b),
        JsonValue::Number(n) => Json::Number(n as int),
        JsonValue::Str(s) => Json::Str(s@),
        JsonValue::Array(items) => Json::Array(
            Seq::new(
                items.len() as nat,
                |i: int|
                    if 0 <= i < items.len() {
                        json_of(items[i])
                    } else {
                        Json::Null
                    },
            ),
        ),
        JsonValue::Object(fields) => Json::Object(
            Seq::new(
                fields.len() as nat,
                |i: int|
                    if 0 <= i < fields.len() {
                        (fields[i].0@, json_of(fields[i].1))
                    } else {
                        (Seq::empty(), Json::Null)
                    },
            ),
        ),
    }
}

impl View for JsonValue {
    type V = Json;

    open spec fn view(&self) -> Json {
        json_of(*self)
    }
}

/// The view of the members of an object.
pub open spec fn members_view(fields: Seq<(String, JsonValue)>) -> Seq<(Seq<char>, Json)> {
    fields.map_values(|p: (String, JsonValue)| (p.0@, json_of(p.1)))
}

pub proof fn lemma_object_view(fields: Vec<(String, JsonValue)>)
    ensures
        JsonValue::Object(fields)@ == Json::Object(members_view(fields@)),
{
    let j = json_of(JsonValue::Object(fields));
    assert(j is Object);
    assert(members_view(fields@) =~= j->Object_0);
}

/// The view of the items of an array.
pub open spec fn items_view(items: Seq<JsonValue>) -> Seq<Json> {
    items.map_values(|v: JsonValue| json_of(v))
}

pub proof fn lemma_array_view(items: Vec<JsonValue>)
    ensures
        JsonValue::Array(items)@ == Json::Array(items_view(items@)),
{
    let j = json_of(JsonValue::Array(items));
    assert(j is Array);
    assert(items_view(items@) =~= j->Array_0);
}

/// The value under `key` at or after position `from`, first match first.
pub open spec fn find_from(fields: Seq<(Seq<char>, Json)>, key: Seq<char>, from: int) -> Option<Json>
    decreases fields.len() - from,
{
    if from < 0 || from >= fields.len() {
        None
    } else if fields[from].0 == key {
        Some(fields[from].1)
    } else {
        find_from(fields, key, from + 1)
    }
}

/// The value of an object's member, where an explicit `null` counts as absent.
pub open spec fn member(fields: Seq<(Seq<char>, Json)>, key: Seq<char>) -> Option<Json> {
    match find_from(fields, key, 0) {
        Some(Json::Null) => None,
        other => other,
    }
}

/// Whether an object has a member (not `null`) under `key`.
pub fn has_member(fields: &Vec<(String, JsonValue)>, key: &str) -> (r: bool)
    ensures
        r == member(members_view(fields@), key@) is Some,
{
    match get_member(fields, key) {
        Some(_) => true,
        None => false,
    }
}

/// Character-wise equality of two strings.
pub fn text_eq(a: &str, b: &str) -> (r: bool)
    ensures
        r == (a@ == b@),
{
    let n = a.unicode_len();
    if n != b.unicode_len() {
        return false;
    }
    let mut i: usize = 0;
    while i < n
        invariant
            n == a@.len(),
            n == b@.len(),
            i <= n,
            forall|j: int| 0 <= j < i ==> a@[j] == b@[j],
        decreases n - i,
    {
        if a.get_char(i) != b.get_char(i) {
            return false;
        }
        i = i + 1;
    }
    assert(a@ =~= b@);
    true
}

/// Looks up an object's member; an explicit `null` counts as absent.
pub fn get_member<'a>(fields: &'a Vec<(String, JsonValue)>, key: &str) -> (r: Option<&'a JsonValue>)
    ensures
        match member(members_view(fields@), key@) {
            Some(j) => r is Some && r->Some_0@ == j,
            None => r is None,
        },
{
    let ghost view = members_view(fields@);
    let mut i: usize = 0;
    while i < fields.len()
        invariant
            i <= fields.len(),
            view == members_view(fields@),
            find_from(view, key@, 0) == find_from(view, key@, i as int),
        decreases fields.len() - i,
    {
        if text_eq(fields[i].0.as_str(), key) {
            proof {
                assert(view[i as int] == (fields@[i as int].0@, json_of(fields@[i as int].1)));
            }
            match &fields[i].1 {
                JsonValue::Null => {
                    return None;
                },
                v => {
                    return Some(v);
                },
            }
        }
        i = i + 1;
    }
    None
}

} // verus!

verus! {

/// Whether a JSON value holds no `null` anywhere, at any depth.
pub open spec fn null_free(j: Json) -> bool
    decreases j,
{
    match j {
        Json::Null => false,
        Json::Array(items) => forall|i: int| 0 <= i < items.len() ==> null_free(#[trigger] items[i]),
        Json::Object(fs) => forall|i: int| 0 <= i < fs.len() ==> null_free(#[trigger] fs[i].1),
        _ => true,
    }
}

/// Whether every member of an object is free of `null`.
pub open spec fn members_null_free(fs: Seq<(Seq<char>, Json)>) -> bool {
    forall|i: int| 0 <= i < fs.len() ==> null_free(#[trigger] fs[i].1)
}

pub proof fn lemma_members_concat(a: Seq<(Seq<char>, Json)>, b: Seq<(Seq<char>, Json)>)
    requires
        members_null_free(a),
        members_null_free(b),
    ensures
        members_null_free(a + b),
{
    assert forall|i: int| 0 <= i < (a + b).len() implies null_free(#[trigger] (a + b)[i].1) by {
        if i < a.len() {
            assert((a + b)[i] == a[i]);
        } else {
            assert((a + b)[i] == b[i - a.len()]);
        }
    }
}

} // verus!

verus! {

/// Whether some member of an object has the name `key`.
pub open spec fn has_key(fs: Seq<(Seq<char>, Json)>, key: Seq<char>) -> bool {
    exists|i: int| 0 <= i < fs.len() && (#[trigger] fs[i]).0 == key
}

pub proof fn lemma_has_key_concat(a: Seq<(Seq<char>, Json)>, b: Seq<(Seq<char>, Json)>, k: Seq<char>)
    ensures
        has_key(a + b, k) == (has_key(a, k) || has_key(b, k)),
{
    if has_key(a + b, k) {
        let i = choose|i: int| 0 <= i < (a + b).len() && (#[trigger] (a + b)[i]).0 == k;
        if i < a.len() {
            assert(a[i] == (a + b)[i]);
        } else {
            assert(b[i - a.len()] == (a + b)[i]);
        }
    }
    if has_key(a, k) {
        let i = choose|i: int| 0 <= i < a.len() && (#[trigger] a[i]).0 == k;
        assert((a + b)[i] == a[i]);
    }
    if has_key(b, k) {
        let i = choose|i: int| 0 <= i < b.len() && (#[trigger] b[i]).0 == k;
        assert((a + b)[a.len() + i] == b[i]);
    }
}

pub proof fn lemma_has_key_small(fs: Seq<(Seq<char>, Json)>, k: Seq<char>)
    requires
        fs.len() <= 1,
    ensures
        has_key(fs, k) == (fs.len() == 1 && fs[0].0 == k),
{
    if fs.len() == 1 && fs[0].0 == k {
        assert(fs[0].0 == k);
    }
}

} // verus!
