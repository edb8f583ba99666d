//! The RSS feed of a timeline: which notes it lists and what each item says.
use vstd::prelude::*;
use crate::db::note::{get_url, note_url, UserNote};

verus! {

/// One item of the feed.
pub struct FeedItem {
    /// The item's id: the note's address, which is also a permanent link.
    pub guid: String,
    pub guid_is_permalink: bool,
    pub title: String,
    pub link: String,
    pub description: String,
    /// The publication time in RFC 2822 form.
    pub pub_date: String,
    /// The Dublin Core creators: the note's author.
    pub creators: Vec<String>,
}

/// Whether RFC 2822 can write the time `ts`: its year is 0 to 9999.
pub open spec fn rfc2822_in_range(ts: int) -> bool {
    -62167219200 <= ts <= 253402300799
}

/// Whether RFC 2822 can write the time `ts` (see `rfc2822_in_range`).
pub fn rfc2822_can_write(ts: i64) -> (ok: bool)
    ensures
        ok == rfc2822_in_range(ts as int),
{
    -62167219200 <= ts && ts <= 253402300799
}

/// The RFC 2822 text (`Tue, 1 Jul 2003 10:52:37 +0000`) of the UTC time `ts`.
pub uninterp spec fn rfc2822_text(ts: int) -> Seq<char>;

/// The time `ts` in RFC 2822 form: `chrono::DateTime::from_timestamp(ts, 0)`
/// and `to_rfc2822()`.  Claimed: the text is `rfc2822_text(ts)`, a function of
/// `ts` alone.  `to_rfc2822` panics outside the years 0 to 9999, which
/// `requires` leaves out.
#[verifier::external_body]
fn rfc2822_of_timestamp(ts: i64) -> (text: String)
    requires
        rfc2822_in_range(ts as int),
    ensures
        text@ == rfc2822_text(ts as int),
{
    chrono::DateTime::from_timestamp(ts, 0).unwrap().to_rfc2822()
}

/// The feed item of a note by its author, on the server whose actor id is
/// `global_id`: the note's address as id and link, its content as title and
/// description, its creation time, and its author as creator.
pub fn feed_item(user_note: &UserNote, global_id: &str) -> (item: FeedItem)
    requires
        rfc2822_in_range(user_note.note.created_time as int),
    ensures
        item.guid@ == note_url(global_id@, user_note.note.id as int),
        item.guid_is_permalink,
        item.title@ == user_note.note.content@,
        item.link@ == note_url(global_id@, user_note.note.id as int),
        item.description@ == user_note.note.content@,
        item.pub_date@ == rfc2822_text(user_note.note.created_time as int),
        item.creators@.len() == 1,
        item.creators@[0]@ == user_note.username@,
{
    let mut creators: Vec<String> = Vec::new();
    creators.push(user_note.username.clone());
    FeedItem {
        guid: get_url(global_id, user_note.note.id),
        guid_is_permalink: true,
        title: user_note.note.content.clone(),
        link: get_url(global_id, user_note.note.id),
        description: user_note.note.content.clone(),
        pub_date: rfc2822_of_timestamp(user_note.note.created_time),
        creators,
    }
}

/// The number of notes a feed lists.
pub const FEED_SIZE: usize = 50;

/// The items of a feed of `notes`: the first 50 notes at most, in order, each
/// as `feed_item` makes it.
pub fn generate_rss_items(notes: &[UserNote], global_id: &str) -> (items: Vec<FeedItem>)
    requires
        forall|i: int| 0 <= i < notes@.len() && i < FEED_SIZE ==> rfc2822_in_range(
            #[trigger] notes@[i].note.created_time as int,
        ),
    ensures
        items@.len() == if notes@.len() < FEED_SIZE { notes@.len() as int } else { FEED_SIZE as int },
        forall|i: int|
            0 <= i < items@.len() ==> {
                &&& (#[trigger] items@[i]).guid@ == note_url(global_id@, notes@[i].note.id as int)
                &&& items@[i].guid_is_permalink
                &&& items@[i].title@ == notes@[i].note.content@
                &&& items@[i].link@ == note_url(global_id@, notes@[i].note.id as int)
                &&& items@[i].description@ == notes@[i].note.content@
                &&& items@[i].pub_date@ == rfc2822_text(notes@[i].note.created_time as int)
                &&& items@[i].creators@.len() == 1
                &&& items@[i].creators@[0]@ == notes@[i].username@
            },
{
    let mut items: Vec<FeedItem> = Vec::new();
    let mut i: usize = 0;
    while i < notes.len() && i < FEED_SIZE
        invariant
            i <= notes@.len(),
            i <= FEED_SIZE,
            items@.len() == i,
            forall|k: int| 0 <= k < notes@.len() && k < FEED_SIZE ==> rfc2822_in_range(
                #[trigger] notes@[k].note.created_time as int,
            ),
            forall|k: int|
                0 <= k < items@.len() ==> {
                    &&& (#[trigger] items@[k]).guid@ == note_url(global_id@, notes@[k].note.id as int)
                    &&& items@[k].guid_is_permalink
                    &&& items@[k].title@ == notes@[k].note.content@
                    &&& items@[k].link@ == note_url(global_id@, notes@[k].note.id as int)
                    &&& items@[k].description@ == notes@[k].note.content@
                    &&& items@[k].pub_date@ == rfc2822_text(notes@[k].note.created_time as int)
                    &&& items@[k].creators@.len() == 1
                    &&& items@[k].creators@[0]@ == notes@[k].username@
                },
        decreases notes@.len() - i,
    {
        let item = feed_item(&notes[i], global_id);
        items.push(item);
        i = i + 1;
    }
    items
}

} // verus!
