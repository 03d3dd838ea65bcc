//! Typed reads of object members: each either yields the member's value (or
//! its absence) or reports that the member has the wrong type.

use vstd::prelude::*;
use crate::json::{Json, JsonValue, UNIT, member, members_view, get_member, items_view, lemma_object_view, lemma_array_view};

verus! {

/// A response body that matches none of the known wire shapes.
#[derive(Debug, Clone, Copy, PartialEq, Eq, Structural)]
pub struct DecodeError;

pub open spec fn opt_text(o: Option<String>) -> Option<Seq<char>> {
    match o {
        Some(s) => Some(s@),
        None => None,
    }
}

pub open spec fn texts_view(v: Vec<String>) -> Seq<Seq<char>> {
    v@.map_values(|s: String| s@)
}

pub open spec fn opt_texts(o: Option<Vec<String>>) -> Option<Seq<Seq<char>>> {
    match o {
        Some(v) => Some(texts_view(v)),
        None => None,
    }
}

/// An optional string member.
pub open spec fn text_of(j: Option<Json>) -> Result<Option<Seq<char>>, ()> {
    match j {
        None => Ok(None),
        Some(Json::Str(s)) => Ok(Some(s)),
        Some(_) => Err(()),
    }
}

/// An optional boolean member.
pub open spec fn flag_of(j: Option<Json>) -> Result<Option<bool>, ()> {
    match j {
        None => Ok(None),
        Some(Json::Bool(b)) => Ok(Some(b)),
        Some(_) => Err(()),
    }
}

/// An optional numeric member, in millionths.
pub open spec fn number_of(j: Option<Json>) -> Result<Option<int>, ()> {
    match j {
        None => Ok(None),
        Some(Json::Number(n)) => Ok(Some(n)),
        Some(_) => Err(()),
    }
}

/// Whether a number (in millionths) is a whole count that fits a `u64`.
pub open spec fn is_count(n: int) -> bool {
    0 <= n && n % (UNIT as int) == 0 && n / (UNIT as int) <= u64::MAX
}

/// An optional non-negative whole-number member.
pub open spec fn count_of(j: Option<Json>) -> Result<Option<nat>, ()> {
    match j {
        None => Ok(None),
        Some(Json::Number(n)) => if is_count(n) {
            Ok(Some((n / (UNIT as int)) as nat))
        } else {
            Err(())
        },
        Some(_) => Err(()),
    }
}

/// The strings of an array whose items are all strings.
pub open spec fn strings_of(items: Seq<Json>) -> Option<Seq<Seq<char>>> {
    if forall|i: int| 0 <= i < items.len() ==> (#[trigger] items[i]) is Str {
        Some(Seq::new(items.len(), |i: int| items[i]->Str_0))
    } else {
        None
    }
}

/// An optional member holding an array of strings.
pub open spec fn texts_of(j: Option<Json>) -> Result<Option<Seq<Seq<char>>>, ()> {
    match j {
        None => Ok(None),
        Some(Json::Array(items)) => match strings_of(items) {
            Some(l) => Ok(Some(l)),
            None => Err(()),
        },
        Some(_) => Err(()),
    }
}

/// An optional member holding an object.
pub open spec fn object_of(j: Option<Json>) -> Result<Option<Seq<(Seq<char>, Json)>>, ()> {
    match j {
        None => Ok(None),
        Some(Json::Object(fs)) => Ok(Some(fs)),
        Some(_) => Err(()),
    }
}

pub fn text_member(fields: &Vec<(String, JsonValue)>, key: &str) -> (r: Result<
    Option<String>,
    DecodeError,
>)
    ensures
        match text_of(member(members_view(fields@), key@)) {
            Ok(o) => r is Ok && opt_text(r->Ok_0) == o,
            Err(_) => r is Err,
        },
{
    match get_member(fields, key) {
        None => Ok(None),
        Some(JsonValue::Str(s)) => Ok(Some(s.clone())),
        Some(_) => Err(DecodeError),
    }
}

pub fn flag_member(fields: &Vec<(String, JsonValue)>, key: &str) -> (r: Result<
    Option<bool>,
    DecodeError,
>)
    ensures
        match flag_of(member(members_view(fields@), key@)) {
            Ok(o) => r == Ok::<Option<bool>, DecodeError>(o),
            Err(_) => r is Err,
        },
{
    match get_member(fields, key) {
        None => Ok(None),
        Some(JsonValue::Bool(b)) => Ok(Some(*b)),
        Some(_) => Err(DecodeError),
    }
}

pub fn number_member(fields: &Vec<(String, JsonValue)>, key: &str) -> (r: Result<
    Option<i128>,
    DecodeError,
>)
    ensures
        match number_of(member(members_view(fields@), key@)) {
            Ok(None) => r == Ok::<Option<i128>, DecodeError>(None),
            Ok(Some(n)) => r is Ok && r->Ok_0 is Some && r->Ok_0->Some_0 == n,
            Err(_) => r is Err,
        },
{
    match get_member(fields, key) {
        None => Ok(None),
        Some(JsonValue::Number(n)) => Ok(Some(*n)),
        Some(_) => Err(DecodeError),
    }
}

pub fn count_member(fields: &Vec<(String, JsonValue)>, key: &str) -> (r: Result<
    Option<u64>,
    DecodeError,
>)
    ensures
        match count_of(member(members_view(fields@), key@)) {
            Ok(None) => r == Ok::<Option<u64>, DecodeError>(None),
            Ok(Some(n)) => r is Ok && r->Ok_0 is Some && r->Ok_0->Some_0 == n,
            Err(_) => r is Err,
        },
{
    match get_member(fields, key) {
        None => Ok(None),
        Some(JsonValue::Number(n)) => {
            let n = *n;
            if n >= 0 && n % UNIT == 0 && n / UNIT <= u64::MAX as i128 {
                Ok(Some((n / UNIT) as u64))
            } else {
                Err(DecodeError)
            }
        },
        Some(_) => Err(DecodeError),
    }
}

/// The strings of `items`, when every item is a string.
pub fn strings_from(items: &Vec<JsonValue>) -> (r: Option<Vec<String>>)
    ensures
        match strings_of(items_view(items@)) {
            Some(l) => r is Some && texts_view(r->Some_0) == l,
            None => r is None,
        },
{
    let ghost view = items_view(items@);
    let mut out: Vec<String> = Vec::new();
    let mut i: usize = 0;
    while i < items.len()
        invariant
            i <= items.len(),
            view == items_view(items@),
            out@.len() == i,
            forall|j: int| 0 <= j < i ==> (#[trigger] view[j]) == Json::Str(out@[j]@),
        decreases items.len() - i,
    {
        match &items[i] {
            JsonValue::Str(s) => {
                out.push(s.clone());
            },
            _ => {
                assert(!(view[i as int] is Str));
                return None;
            },
        }
        i = i + 1;
    }
    assert(texts_view(out) =~= Seq::new(view.len(), |j: int| view[j]->Str_0));
    Some(out)
}

pub fn texts_member(fields: &Vec<(String, JsonValue)>, key: &str) -> (r: Result<
    Option<Vec<String>>,
    DecodeError,
>)
    ensures
        match texts_of(member(members_view(fields@), key@)) {
            Ok(o) => r is Ok && opt_texts(r->Ok_0) == o,
            Err(_) => r is Err,
        },
{
    match get_member(fields, key) {
        None => Ok(None),
        Some(JsonValue::Array(items)) => {
            proof {
                lemma_array_view(*items);
            }
            match strings_from(items) {
                Some(l) => Ok(Some(l)),
                None => Err(DecodeError),
            }
        },
        Some(_) => Err(DecodeError),
    }
}

pub fn object_member<'a>(fields: &'a Vec<(String, JsonValue)>, key: &str) -> (r: Result<
    Option<&'a Vec<(String, JsonValue)>>,
    DecodeError,
>)
    ensures
        match object_of(member(members_view(fields@), key@)) {
            Ok(None) => r is Ok && r->Ok_0 is None,
            Ok(Some(fs)) => r is Ok && r->Ok_0 is Some && members_view(r->Ok_0->Some_0@) == fs,
            Err(_) => r is Err,
        },
{
    match get_member(fields, key) {
        None => Ok(None),
        Some(JsonValue::Object(fs)) => {
            proof {
                lemma_object_view(*fs);
            }
            Ok(Some(fs))
        },
        Some(_) => Err(DecodeError),
    }
}

} // verus!
