//! Notes: their records, how the text a user writes is turned into the HTML
//! that is stored and shown, and how a note is addressed and dated.
use vstd::prelude::*;
use crate::markup::{
    first_reply_exec, linked_text, mentions_exec, mentions_of, reply_of, replace_all_exec, Rule,
};
use crate::text::{chars_of, int_text, nat_text, parse_digits, push_i64, push_str};

verus! {

/// A note as stored.  Its creation time is `created_time` whole seconds since
/// 1970-01-01 00:00:00 UTC and `created_nanos` nanoseconds more (a second's
/// worth more during a leap second; see `valid_time`).
#[derive(Clone, Debug)]
pub struct Note {
    pub id: i32,
    pub user_id: i32,
    pub in_reply_to: Option<i32>,
    pub content: String,
    pub created_time: i64,
    pub created_nanos: u32,
    pub neighborhood: bool,
    pub is_remote: bool,
    pub remote_id: Option<String>,
}

/// A note written on this server, ready to be stored.
#[derive(Clone, Debug)]
pub struct NoteInput {
    pub user_id: i32,
    pub content: String,
    pub in_reply_to: Option<i32>,
    pub neighborhood: bool,
}

/// A note received from another server, ready to be stored.
#[derive(Clone, Debug, PartialEq, Eq)]
pub struct RemoteNoteInput {
    pub user_id: i32,
    pub content: String,
    pub in_reply_to: Option<i32>,
    pub neighborhood: bool,
    pub is_remote: bool,
    pub remote_id: String,
}

/// A note together with the name of its author.
pub struct UserNote {
    pub note: Note,
    pub username: String,
}

/// The address of note `note_id` on the server whose ActivityPub id is `global_id`.
pub open spec fn note_url(global_id: Seq<char>, note_id: int) -> Seq<char> {
    global_id + "/note/"@ + int_text(note_id)
}

/// The address of note `note_id`: `{global_id}/note/{note_id}`.
pub fn get_url(global_id: &str, note_id: i32) -> (url: String)
    ensures
        url@ == note_url(global_id@, note_id as int),
{
    let mut url = String::new();
    push_str(&mut url, global_id);
    push_str(&mut url, "/note/");
    push_i64(&mut url, note_id as i64);
    url
}

/// The content of a note as it is sent to other servers: the author, as
/// `{domain}:{username}`, then `💬 `, then the note.
pub open spec fn outgoing_content(domain: Seq<char>, username: Seq<char>, content: Seq<char>) -> Seq<
    char,
> {
    domain + seq![':'] + username + seq!['💬', ' '] + content
}

/// The elements a note's HTML may keep: `br`, `p` and `span`.
pub open spec fn note_tags() -> Seq<Seq<char>> {
    seq!["br"@, "p"@, "span"@]
}

/// The views of a list of texts.
pub open spec fn texts(v: Seq<String>) -> Seq<Seq<char>> {
    v.map_values(|t: String| t@)
}

/// What HTML sanitising keeps of `input` when the elements `tags` are allowed:
/// `ammonia` with its default settings but for the allowed tags.
pub uninterp spec fn sanitized_html(input: Seq<char>, tags: Seq<Seq<char>>) -> Seq<char>;

/// Whether an element named `tag` opens or closes at position `p` of `html`
/// (just after a `<`): the name, or `/` and the name, then a space, `/` or `>`.
pub open spec fn tag_at(html: Seq<char>, p: int, tag: Seq<char>) -> bool {
    let q: int = if 0 <= p < html.len() && html[p] == '/' { p + 1 } else { p };
    &&& 0 <= q
    &&& q + tag.len() < html.len()
    &&& html.subrange(q, q + tag.len()) == tag
    &&& (html[q + tag.len()] == ' ' || html[q + tag.len()] == '/' || html[q + tag.len()] == '>')
}

/// Whether every `<` in `html` opens or closes one of the elements `tags`.
pub open spec fn only_tags(html: Seq<char>, tags: Seq<Seq<char>>) -> bool {
    forall|i: int|
        0 <= i < html.len() && #[trigger] html[i] == '<' ==> exists|j: int|
            0 <= j < tags.len() && tag_at(html, i + 1, #[trigger] tags[j])
}

/// Whether every name in `tags` is `br`, `p` or `span`.
pub open spec fn plain_tags(tags: Seq<Seq<char>>) -> bool {
    forall|j: int| 0 <= j < tags.len() ==> note_tags().contains(#[trigger] tags[j])
}

/// Cleans `input` with `ammonia::Builder::clean`, the builder's allowed tags
/// set to `tags` (`Builder::tags`) and every other setting left at its
/// default.  The tags must be among `br`, `p` and `span`: ammonia panics
/// when an allowed tag is one whose content it removes (`script`, `style`).
/// Claimed: the result is `sanitized_html` of the input and the tags, a
/// function of them alone; and every `<` left opens or closes an allowed
/// element (ammonia drops comments and every other element, and its
/// serializer, html5ever, writes a `<` in text or in an attribute value as
/// `&lt;`).  What else ammonia removes or escapes is not stated.
#[verifier::external_body]
fn clean_html(input: &str, tags: &[String]) -> (clean: String)
    requires
        plain_tags(texts(tags@)),
    ensures
        clean@ == sanitized_html(input@, texts(tags@)),
        only_tags(clean@, texts(tags@)),
{
    let allowed: std::collections::HashSet<&str> = tags.iter().map(|t| t.as_str()).collect();
    ammonia::Builder::default().tags(allowed).clean(input).to_string()
}

/// The elements a note's HTML may keep, as a list (see `note_tags`).
pub fn note_tag_list() -> (v: Vec<String>)
    ensures
        texts(v@) == note_tags(),
{
    let mut br = String::new();
    push_str(&mut br, "br");
    let mut p = String::new();
    push_str(&mut p, "p");
    let mut span = String::new();
    push_str(&mut span, "span");
    let v = vec![br, p, span];
    assert(texts(v@) == note_tags());
    v
}

/// Removes from `input_text` all HTML but the elements `br`, `p` and `span`
/// (see `sanitized_html`): every `<` left opens or closes one of them.  It
/// runs on every note written to the database, local or received.
pub fn remove_unacceptable_html(input_text: &str) -> (clean: String)
    ensures
        clean@ == sanitized_html(input_text@, note_tags()),
        only_tags(clean@, note_tags()),
{
    let tags = note_tag_list();
    clean_html(input_text, tags.as_slice())
}

/// The HTML stored for a note whose author wrote `text`: nothing for empty
/// text; otherwise the sanitised text with its URLs, note references and
/// mentions turned into links.
pub open spec fn note_html(text: Seq<char>) -> Seq<char> {
    if text.len() == 0 {
        seq![]
    } else {
        linked_text(sanitized_html(text, note_tags()))
    }
}

/// The HTML for the text a user wrote (see `note_html`).
pub fn parse_note_text(text: &str) -> (html: String)
    ensures
        html@ == note_html(text@),
{
    let html_clean = remove_unacceptable_html(text);
    if text.is_empty() {
        return String::new();
    }
    let cleaned = chars_of(html_clean.as_str());
    let urls = replace_all_exec(Rule::Url, cleaned.as_slice());
    let urls_chars = chars_of(urls.as_str());
    let notes = replace_all_exec(Rule::NoteRef, urls_chars.as_slice());
    let notes_chars = chars_of(notes.as_str());
    replace_all_exec(Rule::Mention, notes_chars.as_slice())
}

/// The note that `note_text` replies to: the number after its first `📝` or
/// `>>` (see `reply_of`).
pub fn get_reply(note_text: &str) -> (reply: Option<i32>)
    ensures
        reply == reply_of(note_text@),
{
    let t = chars_of(note_text);
    match first_reply_exec(t.as_slice()) {
        Some((p, e)) => parse_digits(t.as_slice(), p, e),
        None => None,
    }
}

/// The names that `note_text` mentions with `@`, in order (see `mentions_of`).
pub fn get_mentions(note_text: &str) -> (names: Vec<String>)
    ensures
        names@.len() == mentions_of(note_text@).len(),
        forall|i: int| 0 <= i < names@.len() ==> #[trigger] names@[i]@ == mentions_of(note_text@)[i],
{
    let t = chars_of(note_text);
    mentions_exec(t.as_slice())
}

impl Note {
    /// The content sent to other servers for this note (see `outgoing_content`).
    pub fn get_content_for_outgoing(&self, domain: &str, username: &str) -> (content: String)
        ensures
            content@ == outgoing_content(domain@, username@, self.content@),
    {
        let mut content = String::new();
        push_str(&mut content, domain);
        content.push(':');
        push_str(&mut content, username);
        content.push('💬');
        content.push(' ');
        push_str(&mut content, self.content.as_str());
        proof {
            assert(content@ == outgoing_content(domain@, username@, self.content@));
        }
        content
    }
}

/// Whether `ts` (seconds since 1970-01-01 00:00:00 UTC) is a time that
/// `chrono`'s date-times can hold: from year -262143 to year 262142.
pub open spec fn chrono_timestamp_in_range(ts: int) -> bool {
    -8334601228800 <= ts <= 8210266876799
}

/// Whether `nanos` nanoseconds after second `ts` is a time that `chrono` can
/// hold: less than a second, or less than two during a leap second (a second
/// `ts` that ends a minute).
pub open spec fn valid_time(ts: int, nanos: int) -> bool {
    nanos < 1_000_000_000 || (nanos < 2_000_000_000 && ts % 60 == 59)
}

/// The date (`YYYY-MM-DD`, as `chrono::NaiveDate` displays it) of the time `ts`.
pub uninterp spec fn naive_date_text(ts: int) -> Seq<char>;

/// The UTC date of `ts`: `chrono::DateTime::from_timestamp(ts, 0)`, its
/// `date_naive()` written with `Display`.  Claimed: the text is
/// `naive_date_text(ts)`, a function of `ts` alone; `from_timestamp` gives a
/// time for every `ts` in the range that `requires` states.
#[verifier::external_body]
fn date_of_timestamp(ts: i64) -> (date: String)
    requires
        chrono_timestamp_in_range(ts as int),
    ensures
        date@ == naive_date_text(ts as int),
{
    chrono::DateTime::from_timestamp(ts, 0).unwrap().date_naive().to_string()
}

/// The whole seconds from the time `nanos` nanoseconds after second `ts` to
/// now: `chrono::Utc::now()` as a naive time, `signed_duration_since` that
/// time (`DateTime::from_timestamp(ts, nanos)`), `num_seconds()`.  Nothing is
/// claimed of the result, which depends on the clock.
#[verifier::external_body]
fn whole_seconds_since(ts: i64, nanos: u32) -> (secs: i64)
    requires
        chrono_timestamp_in_range(ts as int),
        valid_time(ts as int, nanos as int),
{
    chrono::Utc::now().naive_utc().signed_duration_since(
        chrono::DateTime::from_timestamp(ts, nanos).unwrap().naive_utc(),
    ).num_seconds()
}

/// Division rounded toward zero, as Rust's integer `/` does.
pub open spec fn trunc_div(a: int, b: int) -> int {
    if a >= 0 {
        a / b
    } else {
        -((-a) / b)
    }
}

/// How long ago a note was written, `secs` whole seconds after it was, whose
/// date is `date`: the date after 30 days, then whole days (`3d`) after 24
/// hours, whole hours (`5h`) after 60 minutes, whole minutes (`7m`) after 60
/// seconds, else seconds (`9s`).
pub open spec fn relative_time_text(secs: int, date: Seq<char>) -> Seq<char> {
    if trunc_div(secs, 86400) > 30 {
        date
    } else if trunc_div(secs, 3600) > 24 {
        int_text(trunc_div(secs, 86400)) + seq!['d']
    } else if trunc_div(secs, 60) > 60 {
        int_text(trunc_div(secs, 3600)) + seq!['h']
    } else if secs > 60 {
        int_text(trunc_div(secs, 60)) + seq!['m']
    } else {
        int_text(secs) + seq!['s']
    }
}

/// How long ago reads in whole units of the time elapsed: seconds up to a
/// minute (and for a clock that went back), then the whole minutes `m` with
/// `m` minutes <= `secs` < `m + 1` minutes up to an hour and a minute, then the whole
/// hours up to 25 hours, then the whole days up to 31 days, then the date.
pub proof fn lemma_relative_time_in_whole_units(secs: int, date: Seq<char>)
    ensures
        secs <= 60 ==> relative_time_text(secs, date) == int_text(secs) + seq!['s'],
        60 < secs < 3660 ==> exists|m: nat|
            #![trigger nat_text(m)]
            1 <= m <= 60 && m * 60 <= secs < (m + 1) * 60 && nat_text(m) + seq!['m']
                == relative_time_text(secs, date),
        3660 <= secs < 90000 ==> exists|h: nat|
            #![trigger nat_text(h)]
            1 <= h <= 24 && h * 3600 <= secs < (h + 1) * 3600 && nat_text(h) + seq!['h']
                == relative_time_text(secs, date),
        90000 <= secs < 2678400 ==> exists|d: nat|
            #![trigger nat_text(d)]
            1 <= d <= 30 && d * 86400 <= secs < (d + 1) * 86400 && nat_text(d) + seq!['d']
                == relative_time_text(secs, date),
        2678400 <= secs ==> relative_time_text(secs, date) == date,
{
    if secs <= 60 {
        if secs < 0 {
            assert(trunc_div(secs, 86400) <= 0);
            assert(trunc_div(secs, 3600) <= 0);
            assert(trunc_div(secs, 60) <= 0);
        }
    } else if secs < 3660 {
        let m = (secs / 60) as nat;
        assert(m * 60 <= secs < (m + 1) * 60);
        assert(nat_text(m) + seq!['m'] == relative_time_text(secs, date));
    } else if secs < 90000 {
        let h = (secs / 3600) as nat;
        assert(h * 3600 <= secs < (h + 1) * 3600);
        assert(nat_text(h) + seq!['h'] == relative_time_text(secs, date));
    } else if secs < 2678400 {
        let d = (secs / 86400) as nat;
        assert(d * 86400 <= secs < (d + 1) * 86400);
        assert(nat_text(d) + seq!['d'] == relative_time_text(secs, date));
    }
}

/// `a / b` rounded toward zero, for `b >= 2`.
fn div_toward_zero(a: i64, b: i64) -> (q: i64)
    requires
        b >= 2,
    ensures
        q == trunc_div(a as int, b as int),
{
    if a >= 0 {
        ((a as u64) / (b as u64)) as i64
    } else {
        let m: u64 = if a == i64::MIN {
            9223372036854775808u64
        } else {
            (-a) as u64
        };
        assert(m as int == -(a as int));
        let q: u64 = m / (b as u64);
        assert(q <= m / 2) by (nonlinear_arith)
            requires
                q == m / (b as u64),
                b >= 2,
        ;
        -(q as i64)
    }
}

/// How long ago, `secs` seconds after a note dated `date` was written (see
/// `relative_time_text`).
pub fn format_relative_time(secs: i64, date: &str) -> (text: String)
    ensures
        text@ == relative_time_text(secs as int, date@),
{
    let days = div_toward_zero(secs, 86400);
    let hours = div_toward_zero(secs, 3600);
    let minutes = div_toward_zero(secs, 60);
    let mut text = String::new();
    if days > 30 {
        push_str(&mut text, date);
    } else if hours > 24 {
        push_i64(&mut text, days);
        text.push('d');
    } else if minutes > 60 {
        push_i64(&mut text, hours);
        text.push('h');
    } else if secs > 60 {
        push_i64(&mut text, minutes);
        text.push('m');
    } else {
        push_i64(&mut text, secs);
        text.push('s');
    }
    text
}

impl Note {
    /// How long ago the note was written, by the clock now (see
    /// `relative_time_text`; which elapsed time is used depends on the clock).
    pub fn relative_timestamp(&self) -> (text: String)
        requires
            chrono_timestamp_in_range(self.created_time as int),
            valid_time(self.created_time as int, self.created_nanos as int),
        ensures
            exists|secs: int| text@ == relative_time_text(secs, naive_date_text(self.created_time as int)),
    {
        let secs = whole_seconds_since(self.created_time, self.created_nanos);
        let date = date_of_timestamp(self.created_time);
        format_relative_time(secs, date.as_str())
    }
}

} // verus!
