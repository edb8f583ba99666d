//! An earlier shape of note records, kept for the tables that still hold it.
use vstd::prelude::*;

verus! {

/// A stored status.
pub struct Note {
    pub id: i32,
    pub creator_id: i32,
    pub parent_id: Option<i32>,
    pub content: String,
    pub published: String,
}

/// A status ready to be stored.
pub struct NoteInput {
    pub creator_id: i32,
    pub parent_id: Option<i32>,
    pub content: String,
    pub published: String,
}

} // verus!
