//! Stats responses: the two wire shapes and the canonical all-numeric result,
//! where whatever the remote does not report counts as zero.

use vstd::prelude::*;
use crate::json::{Json, JsonValue, member, members_view, has_member};
use crate::decode::{DecodeError, number_of, count_of, text_of, number_member, count_member, text_member};

verus! {

/// The canonical statistics of an author.
#[derive(Debug, Clone, Copy, PartialEq, Eq, Structural)]
pub struct ChainStats {
    pub total_entries: u64,
    /// Earnings in millionths of the currency unit.
    pub total_earnings: i128,
    pub subscribers: u64,
    pub views: u64,
}

/// Statistics with every field zero.
pub fn zero_stats() -> (r: ChainStats)
    ensures
        r == (ChainStats { total_entries: 0, total_earnings: 0, subscribers: 0, views: 0 }),
{
    ChainStats { total_entries: 0, total_earnings: 0, subscribers: 0, views: 0 }
}

pub enum StatsShape {
    /// The nested generation: only the author's entry count.
    Nested { count: Option<nat> },
    /// The flat generation: all four figures.
    Flat {
        total_entries: Option<nat>,
        total_earnings: Option<int>,
        subscribers: Option<nat>,
        views: Option<nat>,
    },
}

pub open spec fn is_flat_stats(fs: Seq<(Seq<char>, Json)>) -> bool {
    member(fs, "totalEntries"@) is Some || member(fs, "totalEarnings"@) is Some || member(
        fs,
        "subscribers"@,
    ) is Some || member(fs, "views"@) is Some
}

/// The nested shape is recognised by its `count` or `author` member.
pub open spec fn is_nested_stats(fs: Seq<(Seq<char>, Json)>) -> bool {
    member(fs, "count"@) is Some || member(fs, "author"@) is Some
}

/// The shape of a stats response: flat when any of its four figures is there,
/// nested when its count or author is (the author a string), else none.
pub open spec fn stats_shape(body: Json) -> Option<StatsShape> {
    match body {
        Json::Object(fs) => if is_flat_stats(fs) {
            let e = count_of(member(fs, "totalEntries"@));
            let m = number_of(member(fs, "totalEarnings"@));
            let s = count_of(member(fs, "subscribers"@));
            let v = count_of(member(fs, "views"@));
            if e is Ok && m is Ok && s is Ok && v is Ok {
                Some(
                    StatsShape::Flat {
                        total_entries: e->Ok_0,
                        total_earnings: m->Ok_0,
                        subscribers: s->Ok_0,
                        views: v->Ok_0,
                    },
                )
            } else {
                None
            }
        } else {
            let c = count_of(member(fs, "count"@));
            let a = text_of(member(fs, "author"@));
            if is_nested_stats(fs) && c is Ok && a is Ok {
                Some(StatsShape::Nested { count: c->Ok_0 })
            } else {
                None
            }
        },
        _ => None,
    }
}

pub open spec fn nat_or_zero(o: Option<nat>) -> nat {
    match o {
        Some(n) => n,
        None => 0,
    }
}

pub open spec fn int_or_zero(o: Option<int>) -> int {
    match o {
        Some(n) => n,
        None => 0,
    }
}

/// Whether `r` is the canonical form of a recognised stats response.
pub open spec fn canonical_stats(shape: StatsShape, r: ChainStats) -> bool {
    match shape {
        StatsShape::Nested { count } => r.total_entries == nat_or_zero(count) && r.total_earnings
            == 0 && r.subscribers == 0 && r.views == 0,
        StatsShape::Flat { total_entries, total_earnings, subscribers, views } => r.total_entries
            == nat_or_zero(total_entries) && r.total_earnings == int_or_zero(total_earnings)
            && r.subscribers == nat_or_zero(subscribers) && r.views == nat_or_zero(views),
    }
}

/// Recognises the shape of a stats response and maps it to canonical
/// statistics. A body of neither shape is a decode error.
pub fn parse_stats_response(body: &JsonValue) -> (r: Result<ChainStats, DecodeError>)
    ensures
        match stats_shape(body@) {
            None => r is Err,
            Some(s) => r is Ok && canonical_stats(s, r->Ok_0),
        },
{
    match body {
        JsonValue::Object(fields) => {
            proof {
                crate::json::lemma_object_view(*fields);
            }
            let e = count_member(fields, "totalEntries");
            let m = number_member(fields, "totalEarnings");
            let s = count_member(fields, "subscribers");
            let v = count_member(fields, "views");
            let flat = match (&e, &m, &s, &v) {
                (Ok(None), Ok(None), Ok(None), Ok(None)) => false,
                _ => true,
            };
            if flat {
                Ok(
                    ChainStats {
                        total_entries: unwrap_count(e?),
                        total_earnings: match m? {
                            Some(n) => n,
                            None => 0,
                        },
                        subscribers: unwrap_count(s?),
                        views: unwrap_count(v?),
                    },
                )
            } else {
                if !(has_member(fields, "count") || has_member(fields, "author")) {
                    return Err(DecodeError);
                }
                let _ = text_member(fields, "author")?;
                let c = count_member(fields, "count")?;
                Ok(
                    ChainStats {
                        total_entries: unwrap_count(c),
                        total_earnings: 0,
                        subscribers: 0,
                        views: 0,
                    },
                )
            }
        },
        _ => Err(DecodeError),
    }
}

fn unwrap_count(o: Option<u64>) -> (r: u64)
    ensures
        r == match o {
            Some(n) => n,
            None => 0,
        },
{
    match o {
        Some(n) => n,
        None => 0,
    }
}

} // verus!
