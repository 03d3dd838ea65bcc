//! Publish responses: the two wire shapes and the canonical result, with the
//! transaction URL derived only from an identifier that was returned.

use vstd::prelude::*;
use crate::json::{Json, JsonValue, member, members_view, has_member};
use crate::decode::{
    DecodeError, opt_text, text_of, flag_of, object_of, text_member, flag_member, object_member,
};
use crate::transport::{trim_slashes, endpoint_url};

verus! {

/// The canonical outcome of publishing an entry.
#[derive(Debug, Clone)]
pub struct PublishResult {
    pub success: bool,
    pub entry_id: Option<String>,
    pub block_hash: Option<String>,
    pub error: Option<String>,
    pub transaction_url: Option<String>,
}

pub struct PublishView {
    pub success: bool,
    pub entry_id: Option<Seq<char>>,
    pub block_hash: Option<Seq<char>>,
    pub error: Option<Seq<char>>,
    pub transaction_url: Option<Seq<char>>,
}

impl View for PublishResult {
    type V = PublishView;

    open spec fn view(&self) -> PublishView {
        PublishView {
            success: self.success,
            entry_id: opt_text(self.entry_id),
            block_hash: opt_text(self.block_hash),
            error: opt_text(self.error),
            transaction_url: opt_text(self.transaction_url),
        }
    }
}

/// The nested generation: a status word and an entry record whose timestamp
/// serves as the identifier.
pub struct NestedPublish {
    pub status: Option<Seq<char>>,
    pub timestamp: Option<Seq<char>>,
    pub block_hash: Option<Seq<char>>,
    pub error: Option<Seq<char>>,
}

/// The flat generation: a success flag and a direct identifier.
pub struct FlatPublish {
    pub success: bool,
    pub entry_id: Option<Seq<char>>,
    pub block_hash: Option<Seq<char>>,
    pub error: Option<Seq<char>>,
}

pub enum PublishShape {
    Nested(NestedPublish),
    Flat(FlatPublish),
}

pub open spec fn flat_publish(fs: Seq<(Seq<char>, Json)>) -> Option<PublishShape> {
    let success = flag_of(member(fs, "success"@));
    let id = text_of(member(fs, "entryId"@));
    let hash = text_of(member(fs, "blockHash"@));
    let error = text_of(member(fs, "error"@));
    if success is Ok && success->Ok_0 is Some && id is Ok && hash is Ok && error is Ok {
        Some(
            PublishShape::Flat(
                FlatPublish {
                    success: success->Ok_0->Some_0,
                    entry_id: id->Ok_0,
                    block_hash: hash->Ok_0,
                    error: error->Ok_0,
                },
            ),
        )
    } else {
        None
    }
}

/// Whether every member of an entry record that is present is a string.
pub open spec fn entry_record_ok(e: Seq<(Seq<char>, Json)>) -> bool {
    text_of(member(e, "status"@)) is Ok && text_of(member(e, "message"@)) is Ok && text_of(
        member(e, "content"@),
    ) is Ok && text_of(member(e, "author"@)) is Ok && text_of(member(e, "intent"@)) is Ok
        && text_of(member(e, "validation_status"@)) is Ok
}

/// The timestamp of the entry record, if the record is well formed.
pub open spec fn entry_timestamp(fs: Seq<(Seq<char>, Json)>) -> Result<Option<Seq<char>>, ()> {
    match object_of(member(fs, "entry"@)) {
        Ok(None) => Ok(None),
        Ok(Some(e)) => if entry_record_ok(e) {
            text_of(member(e, "timestamp"@))
        } else {
            Err(())
        },
        Err(_) => Err(()),
    }
}

/// The nested shape is recognised by any of its four members.
pub open spec fn is_nested_publish(fs: Seq<(Seq<char>, Json)>) -> bool {
    member(fs, "status"@) is Some || member(fs, "entry"@) is Some || member(fs, "block_hash"@) is Some
        || member(fs, "error"@) is Some
}

pub open spec fn nested_publish(fs: Seq<(Seq<char>, Json)>) -> Option<PublishShape> {
    let status = text_of(member(fs, "status"@));
    let stamp = entry_timestamp(fs);
    let hash = text_of(member(fs, "block_hash"@));
    let error = text_of(member(fs, "error"@));
    if is_nested_publish(fs) && status is Ok && stamp is Ok && hash is Ok && error is Ok {
        Some(
            PublishShape::Nested(
                NestedPublish {
                    status: status->Ok_0,
                    timestamp: stamp->Ok_0,
                    block_hash: hash->Ok_0,
                    error: error->Ok_0,
                },
            ),
        )
    } else {
        None
    }
}

/// The shape of a publish response: flat with a `success` flag, nested with
/// any of its own members, else none.
pub open spec fn publish_shape(body: Json) -> Option<PublishShape> {
    match body {
        Json::Object(fs) => if member(fs, "success"@) is Some {
            flat_publish(fs)
        } else {
            nested_publish(fs)
        },
        _ => None,
    }
}

/// Where the nested generation lists an author's entries.
pub open spec fn author_entries_url(base: Seq<char>, author: Seq<char>) -> Seq<char> {
    trim_slashes(base) + "/entries/author/"@ + author
}

/// Where the flat generation shows one entry.
pub open spec fn entry_url(base: Seq<char>, id: Seq<char>) -> Seq<char> {
    trim_slashes(base) + "/entry/"@ + id
}

/// The canonical result of a recognised publish response.
pub open spec fn canonical_publish(shape: PublishShape, base: Seq<char>, author: Seq<char>) -> PublishView {
    match shape {
        PublishShape::Nested(n) => PublishView {
            success: n.status == Some("success"@),
            entry_id: n.timestamp,
            block_hash: n.block_hash,
            error: n.error,
            transaction_url: if n.timestamp is Some {
                Some(author_entries_url(base, author))
            } else {
                None
            },
        },
        PublishShape::Flat(f) => PublishView {
            success: f.success,
            entry_id: f.entry_id,
            block_hash: f.block_hash,
            error: f.error,
            transaction_url: match f.entry_id {
                Some(id) => Some(entry_url(base, id)),
                None => None,
            },
        },
    }
}

/// The URL of an entry of the flat generation.
pub fn transaction_url_for_entry(base: &str, id: &str) -> (r: String)
    ensures
        r@ == entry_url(base@, id@),
{
    let t = endpoint_url(base, "/entry/");
    t.concat(id)
}

/// The URL listing an author's entries.
pub fn transaction_url_for_author(base: &str, author: &str) -> (r: String)
    ensures
        r@ == author_entries_url(base@, author@),
{
    let t = endpoint_url(base, "/entries/author/");
    t.concat(author)
}

fn parse_flat(fields: &Vec<(String, JsonValue)>, base: &str) -> (r: Result<
    PublishResult,
    DecodeError,
>)
    ensures
        match flat_publish(members_view(fields@)) {
            None => r is Err,
            Some(s) => r is Ok && r->Ok_0@ == canonical_publish(s, base@, Seq::empty()),
        },
{
    let success = match flag_member(fields, "success") {
        Ok(Some(b)) => b,
        _ => {
            return Err(DecodeError);
        },
    };
    let entry_id = text_member(fields, "entryId")?;
    let block_hash = text_member(fields, "blockHash")?;
    let error = text_member(fields, "error")?;
    let transaction_url = match &entry_id {
        Some(id) => Some(transaction_url_for_entry(base, id.as_str())),
        None => None,
    };
    Ok(PublishResult { success, entry_id, block_hash, error, transaction_url })
}

fn parse_nested(fields: &Vec<(String, JsonValue)>, base: &str, author: &str) -> (r: Result<
    PublishResult,
    DecodeError,
>)
    ensures
        match nested_publish(members_view(fields@)) {
            None => r is Err,
            Some(s) => r is Ok && r->Ok_0@ == canonical_publish(s, base@, author@),
        },
{
    if !(has_member(fields, "status") || has_member(fields, "entry") || has_member(
        fields,
        "block_hash",
    ) || has_member(fields, "error")) {
        return Err(DecodeError);
    }
    let status = text_member(fields, "status")?;
    let entry_id = match object_member(fields, "entry")? {
        Some(e) => {
            let _ = text_member(e, "status")?;
            let _ = text_member(e, "message")?;
            let _ = text_member(e, "content")?;
            let _ = text_member(e, "author")?;
            let _ = text_member(e, "intent")?;
            let _ = text_member(e, "validation_status")?;
            text_member(e, "timestamp")?
        },
        None => None,
    };
    let block_hash = text_member(fields, "block_hash")?;
    let error = text_member(fields, "error")?;
    let success = match &status {
        Some(s) => crate::json::text_eq(s.as_str(), "success"),
        None => false,
    };
    let transaction_url = match &entry_id {
        Some(_) => Some(transaction_url_for_author(base, author)),
        None => None,
    };
    Ok(PublishResult { success, entry_id, block_hash, error, transaction_url })
}

/// Recognises the shape of a publish response and maps it to the canonical
/// result; `base` and `author` build the transaction URL. A body of neither
/// shape is a decode error.
pub fn parse_publish_response(body: &JsonValue, base: &str, author: &str) -> (r: Result<
    PublishResult,
    DecodeError,
>)
    ensures
        match publish_shape(body@) {
            None => r is Err,
            Some(s) => r is Ok && r->Ok_0@ == canonical_publish(s, base@, author@),
        },
{
    match body {
        JsonValue::Object(fields) => {
            proof {
                crate::json::lemma_object_view(*fields);
            }
            let flat = match crate::json::get_member(fields, "success") {
                Some(_) => true,
                None => false,
            };
            if flat {
                parse_flat(fields, base)
            } else {
                parse_nested(fields, base, author)
            }
        },
        _ => Err(DecodeError),
    }
}

} // verus!

verus! {

/// Whether `s` has no two adjacent `/` at or after position `from`.
pub open spec fn single_slashes_from(s: Seq<char>, from: int) -> bool {
    forall|i: int| from <= i && i + 1 < s.len() ==> !(#[trigger] s[i] == '/' && s[i + 1] == '/')
}

/// The transaction URL of a flat-generation entry has no doubled slash past
/// `from`, when the base has none there and the identifier holds no `/`:
/// trailing slashes of the base are dropped before the path is appended.
pub proof fn lemma_entry_url_single_slashes(base: Seq<char>, id: Seq<char>, from: int)
    requires
        0 <= from,
        single_slashes_from(base, from),
        forall|i: int| 0 <= i < id.len() ==> id[i] != '/',
    ensures
        single_slashes_from(entry_url(base, id), from),
{
    crate::transport::lemma_trim_slashes(base);
    reveal_strlit("/entry/");
    let t = trim_slashes(base);
    let p = "/entry/"@;
    let u = entry_url(base, id);
    assert(u == t + p + id);
    assert forall|i: int| from <= i && i + 1 < u.len() implies !(#[trigger] u[i] == '/' && u[i + 1]
        == '/') by {
        if i + 1 < t.len() {
            assert(u[i] == base[i] && u[i + 1] == base[i + 1]);
        } else if i + 1 == t.len() {
            assert(u[i] == t.last());
        } else if i + 1 < t.len() + p.len() {
            assert(u[i + 1] == p[i + 1 - t.len()]);
            assert(u[i] == p[i - t.len()]);
        } else {
            assert(u[i + 1] == id[i + 1 - t.len() - p.len()]);
        }
    }
}

} // verus!
