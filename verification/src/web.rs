//! The decisions behind the web pages and forms: paging, the header every page
//! shows, who may edit a page, and what writing a note stores and notifies.
use vstd::prelude::*;
use crate::db::note::{get_mentions, get_reply, note_html, parse_note_text, NoteInput, UserNote};
use crate::db::notification::NewNotification;
use crate::db::user::{
    bcrypt_verdict, is_default_user, new_user, password_score, same_text, strong_enough, NewUser,
    RegisterForm, User,
};
use crate::markup::{mentions_of, reply_of};
use crate::text::{int_text, push_i64, push_str};

verus! {

/// How many notes a page shows.
pub const PAGE_SIZE: i64 = 50;

/// What a page of notes was asked for: the page number (from 1) and,
/// optionally, whose notes.
pub struct GetPostsParams {
    pub page: i64,
    pub user_id: Option<i32>,
}

/// The page shown when none is asked for.
pub fn default_page() -> (page: i64)
    ensures
        page == 1,
{
    1
}

impl Default for GetPostsParams {
    /// The first page, of everyone's notes.
    fn default() -> (p: GetPostsParams)
        ensures
            p.page == 1,
            p.user_id is None,
    {
        GetPostsParams { page: 1, user_id: None }
    }
}

/// How many notes come before page `page`: `(page - 1) * PAGE_SIZE`.  The
/// product must fit in an `i64`.
pub fn page_offset(page: i64) -> (offset: i64)
    requires
        i64::MIN <= (page - 1) * PAGE_SIZE <= i64::MAX,
    ensures
        offset == (page - 1) * PAGE_SIZE,
{
    (page - 1) * PAGE_SIZE
}

/// How many notes a page query fetches: one more than a page shows, so that
/// a next page is offered only when there is a note for it.
pub const PAGE_FETCH: i64 = 51;

/// Whether a page for which the query fetched `fetched` notes offers a next
/// page: when more notes came back than a page shows.
pub fn has_more(fetched: usize) -> (more: bool)
    ensures
        more == (fetched > PAGE_SIZE),
{
    fetched > 50
}

/// The notes a page shows of those its query fetched: the first
/// `PAGE_SIZE` of them.
pub fn page_notes(fetched: Vec<UserNote>) -> (shown: Vec<UserNote>)
    ensures
        fetched@.len() <= PAGE_SIZE ==> shown@ == fetched@,
        fetched@.len() > PAGE_SIZE ==> shown@ == fetched@.subrange(0, PAGE_SIZE as int),
{
    let mut shown = fetched;
    shown.truncate(50);
    shown
}

/// What the header of every page shows.
pub struct Global {
    pub title: String,
    pub page: String,
    pub page_num: i64,
    pub page_title: String,
    pub me: User,
    pub has_more: bool,
    pub logged_in: bool,
    pub unread_notifications: i64,
}

/// The title every page carries.
pub open spec fn site_title() -> Seq<char> {
    "gourami"@
}

impl Default for Global {
    /// The header of a page nobody is logged in to: titled `gourami`, page 1,
    /// no page name, the default user, nothing more, nothing unread.
    fn default() -> (g: Global)
        ensures
            g.title@ == site_title(),
            g.page@ == Seq::<char>::empty(),
            g.page_num == 1,
            g.page_title@ == Seq::<char>::empty(),
            is_default_user(g.me),
            !g.has_more,
            !g.logged_in,
            g.unread_notifications == 0,
    {
        let mut title = String::new();
        push_str(&mut title, "gourami");
        Global {
            title,
            page: String::new(),
            page_num: 1,
            page_title: String::new(),
            me: User::default(),
            has_more: false,
            logged_in: false,
            unread_notifications: 0,
        }
    }
}

impl Global {
    /// The header of page `page` for `user`, who has `unread` unread
    /// notifications.  For a logged-in user it holds the user, the page, the
    /// page's name (the page without its leading character, which must be
    /// ASCII, as `/` is) and the unread count; else only the page.  The rest is
    /// as on `default`.
    pub fn create(user: Option<User>, page: &str, unread: i64) -> (g: Global)
        requires
            user is Some ==> page@.len() > 0 && (page@[0] as u32) < 128,
        ensures
            g.title@ == site_title(),
            g.page@ == page@,
            g.page_num == 1,
            !g.has_more,
            g.logged_in == user is Some,
            match user {
                Some(u) => {
                    &&& g.me == u
                    &&& g.page_title@ == page@.drop_first()
                    &&& g.unread_notifications == unread
                },
                None => {
                    &&& is_default_user(g.me)
                    &&& g.page_title@ == Seq::<char>::empty()
                    &&& g.unread_notifications == 0
                },
            },
    {
        let mut title = String::new();
        push_str(&mut title, "gourami");
        let mut page_owned = String::new();
        push_str(&mut page_owned, page);
        match user {
            Some(u) => {
                let chars = crate::text::chars_of(page);
                let mut page_title = String::new();
                crate::text::push_slice(&mut page_title, chars.as_slice(), 1, chars.len());
                assert(chars@.subrange(1, chars@.len() as int) == page@.drop_first());
                Global {
                    title,
                    page: page_owned,
                    page_num: 1,
                    page_title,
                    me: u,
                    has_more: false,
                    logged_in: true,
                    unread_notifications: unread,
                }
            },
            None => Global {
                title,
                page: page_owned,
                page_num: 1,
                page_title: String::new(),
                me: User::default(),
                has_more: false,
                logged_in: false,
                unread_notifications: 0,
            },
        }
    }
}

/// The note stored when user `user_id` writes `text`: its HTML (see
/// `note_html`), the note it replies to (see `reply_of`), and whether it is
/// shared with the neighborhood.
pub fn new_note_input(user_id: i32, text: &str, neighborhood: bool) -> (input: NoteInput)
    ensures
        input.user_id == user_id,
        input.in_reply_to == reply_of(text@),
        input.content@ == note_html(text@),
        input.neighborhood == neighborhood,
{
    NoteInput {
        user_id,
        in_reply_to: get_reply(text),
        content: parse_note_text(text),
        neighborhood,
    }
}

/// The mentions in `names` other than `author`, in order.
pub open spec fn others(names: Seq<Seq<char>>, author: Seq<char>) -> Seq<Seq<char>>
    decreases names.len(),
{
    if names.len() == 0 {
        seq![]
    } else if names.last() == author {
        others(names.drop_last(), author)
    } else {
        others(names.drop_last(), author).push(names.last())
    }
}

/// The text of the notification that `author` mentioned someone in note `note_id`.
pub open spec fn mention_message(author: Seq<char>, note_id: int) -> Seq<char> {
    "@"@ + author + " mentioned you in a note 📝"@ + int_text(note_id)
}

/// What writing note `note_id` with text `text` by `author` notifies: nothing
/// when the text mentions nobody; else one notification, its HTML made from
/// `mention_message` as a note's is (see `note_html`), for every mentioned
/// name other than the author's (in order, as often as mentioned).
pub fn mention_notification(author: &str, note_id: i32, text: &str) -> (r: Option<
    (NewNotification, Vec<String>),
>)
    ensures
        match r {
            None => mentions_of(text@).len() == 0,
            Some((n, recipients)) => {
                &&& mentions_of(text@).len() > 0
                &&& n.notification_html@ == note_html(mention_message(author@, note_id as int))
                &&& !n.server_message
                &&& recipients@.len() == others(mentions_of(text@), author@).len()
                &&& forall|i: int|
                    0 <= i < recipients@.len() ==> #[trigger] recipients@[i]@ == others(
                        mentions_of(text@),
                        author@,
                    )[i]
            },
        },
{
    let mentions = get_mentions(text);
    if mentions.len() == 0 {
        return None;
    }
    let mut message = String::new();
    push_str(&mut message, "@");
    push_str(&mut message, author);
    push_str(&mut message, " mentioned you in a note 📝");
    push_i64(&mut message, note_id as i64);
    let notification = NewNotification {
        notification_html: parse_note_text(message.as_str()),
        server_message: false,
    };
    let ghost names = mentions_of(text@);
    let mut recipients: Vec<String> = Vec::new();
    let mut i: usize = 0;
    while i < mentions.len()
        invariant
            0 <= i <= mentions@.len(),
            mentions@.len() == names.len(),
            forall|j: int| 0 <= j < mentions@.len() ==> #[trigger] mentions@[j]@ == names[j],
            recipients@.len() == others(names.take(i as int), author@).len(),
            forall|j: int|
                0 <= j < recipients@.len() ==> #[trigger] recipients@[j]@ == others(
                    names.take(i as int),
                    author@,
                )[j],
        decreases mentions@.len() - i,
    {
        assert(names.take((i + 1) as int).drop_last() == names.take(i as int));
        assert(names.take((i + 1) as int).last() == names[i as int]);
        if !same_text(mentions[i].as_str(), author) {
            recipients.push(mentions[i].clone());
        }
        i = i + 1;
    }
    assert(names.take(mentions@.len() as int) == names);
    Some((notification, recipients))
}

/// The text of the notification that `author` replied in note `note_id` to
/// a note of the recipient.
pub open spec fn reply_message(author: Seq<char>, note_id: int) -> Seq<char> {
    "@"@ + author + " replied to your note 📝"@ + int_text(note_id)
}

/// What a reply notifies: user `author_id`, named `author`, wrote note
/// `note_id`, which replies to a note whose author is `replied_to` (its user
/// id; `None` when the note replies to nothing or to a note that is not
/// stored).  The author of the note replied to gets one notification, its
/// HTML made from `reply_message` as a note's is, unless they replied to
/// themselves.
pub fn reply_notification(author: &str, author_id: i32, note_id: i32, replied_to: Option<i32>) -> (r:
    Option<(NewNotification, i32)>)
    ensures
        match replied_to {
            Some(w) if w != author_id => r matches Some((n, recipient)) && {
                &&& recipient == w
                &&& n.notification_html@ == note_html(reply_message(author@, note_id as int))
                &&& !n.server_message
            },
            _ => r is None,
        },
{
    match replied_to {
        Some(w) => {
            if w == author_id {
                return None;
            }
            let mut message = String::new();
            push_str(&mut message, "@");
            push_str(&mut message, author);
            push_str(&mut message, " replied to your note 📝");
            push_i64(&mut message, note_id as i64);
            let notification = NewNotification {
                notification_html: parse_note_text(message.as_str()),
                server_message: false,
            };
            Some((notification, w))
        },
        None => None,
    }
}

/// A mention notifies each mentioned name other than the author's: every
/// name in the note's mentions that is not the author's is among the
/// recipients (`mention_notification`), and the author never is.
pub proof fn lemma_mentions_notified(names: Seq<Seq<char>>, author: Seq<char>)
    ensures
        forall|i: int| 0 <= i < names.len() && names[i] != author ==> others(names, author).contains(
            #[trigger] names[i],
        ),
        forall|j: int| 0 <= j < others(names, author).len() ==> #[trigger] others(names, author)[j] != author,
    decreases names.len(),
{
    if names.len() > 0 {
        let init = names.drop_last();
        lemma_mentions_notified(init, author);
        let o = others(names, author);
        let oi = others(init, author);
        assert forall|i: int| 0 <= i < names.len() && names[i] != author implies o.contains(
            #[trigger] names[i],
        ) by {
            if i < names.len() - 1 {
                assert(names[i] == init[i]);
                assert(oi.contains(init[i]));
                let k = choose|k: int| 0 <= k < oi.len() && oi[k] == init[i];
                if names.last() == author {
                    assert(o == oi);
                } else {
                    assert(o[k] == oi[k]);
                }
            } else {
                assert(o == oi.push(names.last()));
                assert(o[oi.len() as int] == names[i]);
            }
        }
        assert forall|j: int| 0 <= j < o.len() implies #[trigger] o[j] != author by {
            if names.last() != author && j == oi.len() {
            } else {
                assert(o[j] == oi[j]);
            }
        }
    }
}

/// A page of the server's outbox; the server publishes no outbox yet, so
/// there is nothing to give.
pub fn get_outbox() {
}

/// Where a newly written note is sent: to the given inboxes when it is shared
/// with the neighborhood, nowhere when it is local.
pub fn outgoing_destinations(neighborhood: bool, inboxes: Vec<String>) -> (to: Vec<String>)
    ensures
        neighborhood ==> to == inboxes,
        !neighborhood ==> to@.len() == 0,
{
    if neighborhood {
        inboxes
    } else {
        Vec::new()
    }
}

/// Why a registration stores no user.
#[derive(PartialEq, Eq, Structural, Debug, Clone, Copy)]
pub enum RegisterError {
    /// The password scored 0 with zxcvbn.
    WeakPassword,
    /// No valid invitation key was presented.
    NoValidKey,
    /// Hashing the password failed.
    HashFailed,
}

/// Whether `r` is what a registration with `form` gives when its password
/// scored `score` and the invitation key presented is `key_valid` (`None`
/// when none was presented): a weak password is refused, then a registration
/// without a valid key; otherwise the user is stored with the form's name and
/// email and the bcrypt hash of its password, unless hashing failed.
pub open spec fn registration_fits(
    form: RegisterForm,
    score: u8,
    key_valid: Option<bool>,
    r: Result<NewUser, RegisterError>,
) -> bool {
    &&& (r matches Err(RegisterError::WeakPassword)) <==> !strong_enough(score)
    &&& (r matches Err(RegisterError::NoValidKey)) <==> (strong_enough(score) && key_valid != Some(true))
    &&& (r matches Err(RegisterError::HashFailed)) ==> (strong_enough(score) && key_valid == Some(true))
    &&& r matches Ok(u) ==> {
        &&& strong_enough(score)
        &&& key_valid == Some(true)
        &&& u.username@ == form.username@
        &&& u.email@ == form.email@
        &&& bcrypt_verdict(form.password@, u.password@) == Some(true)
    }
}

/// The outcome of a registration whose password scored `score` (see
/// `registration_fits`); which hash is stored depends on a random salt.
pub fn registration_outcome(form: &RegisterForm, score: u8, key_valid: Option<bool>) -> (r: Result<
    NewUser,
    RegisterError,
>)
    ensures
        registration_fits(*form, score, key_valid, r),
{
    if !strong_enough_exec(score) {
        return Err(RegisterError::WeakPassword);
    }
    match key_valid {
        Some(true) => {},
        _ => {
            return Err(RegisterError::NoValidKey);
        },
    }
    match new_user(form.username.as_str(), form.password.as_str(), form.email.as_str()) {
        Some(u) => Ok(u),
        None => Err(RegisterError::HashFailed),
    }
}

/// Whether a score is strong enough (see `strong_enough`).
fn strong_enough_exec(score: u8) -> (ok: bool)
    ensures
        ok == strong_enough(score),
{
    score >= 1
}

/// Registers `form`: scores its password with zxcvbn, then gives the outcome
/// for that score (see `registration_fits`).  Which score zxcvbn gives
/// depends on the current year.
pub fn registration(form: &RegisterForm, key_valid: Option<bool>) -> (r: Result<NewUser, RegisterError>)
    requires
        form.password@.len() > 0,
    ensures
        exists|score: u8| score <= 4 && #[trigger] registration_fits(*form, score, key_valid, r),
{
    let score = password_score(form.password.as_str());
    let r = registration_outcome(form, score, key_valid);
    assert(registration_fits(*form, score, key_valid, r));
    r
}

} // verus!
