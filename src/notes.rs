//! The journal's note record, as the local store keeps it.

use vstd::prelude::*;

verus! {

/// A note of one day; a deleted note keeps its row with a deletion time.
#[derive(Debug, Clone)]
pub struct Note {
    pub id: String,
    pub date: String,
    pub title: Option<String>,
    pub content: String,
    pub created_at: String,
    pub updated_at: String,
    pub deleted_at: Option<String>,
}

} // verus!
