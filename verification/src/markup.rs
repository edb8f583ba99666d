//! The grammar of note text.  A note refers to another note with `📝N` or
//! `>>N`, mentions a user with `@name`, and links by writing a URL.  This module
//! states, over character sequences, where each of these is recognised (the
//! leftmost match wins, and among the alternatives at one place the first that
//! matches) and what text replaces it when a note is rendered, and implements
//! both.
use vstd::prelude::*;
use crate::charclass::{ascii_punct, digit_class, is_ascii_punct, is_digit, is_space, is_word, space_char, word_char};
use crate::text::{
    is_ascii_digit, lemma_nat_text_value, nat_text, parse_digits, parse_digits_i32, push_slice, push_str,
};

verus! {

/// The character classes that the grammar repeats (`X+`).
#[derive(Clone, Copy, PartialEq, Eq, Debug)]
pub enum CharClass {
    /// `[\w-]`, the scheme of a URL.
    Scheme,
    /// `[^\s()<>]`, the body of a URL.
    UrlBody,
    /// `[\w\d]`, the inside of a parenthesised URL ending.
    ParenInner,
    /// `\d`, the number of a note reference.
    Digit,
    /// `\S`, the name of a mention.
    NonSpace,
}

/// Whether class `k` holds `c`.
pub open spec fn in_class(k: CharClass, c: char) -> bool {
    match k {
        CharClass::Scheme => word_char(c) || c == '-',
        CharClass::UrlBody => !space_char(c) && c != '(' && c != ')' && c != '<' && c != '>',
        CharClass::ParenInner => word_char(c) || digit_class(c),
        CharClass::Digit => digit_class(c),
        CharClass::NonSpace => !space_char(c),
    }
}

/// The length of the longest run of class-`k` characters that starts at `i`.
pub open spec fn run_len(t: Seq<char>, i: int, k: CharClass) -> nat
    decreases t.len() - i,
{
    if 0 <= i < t.len() && in_class(k, t[i]) {
        1 + run_len(t, i + 1, k)
    } else {
        0
    }
}

/// Whether a word character stands at position `i` (`false` outside the text).
pub open spec fn word_at(t: Seq<char>, i: int) -> bool {
    0 <= i < t.len() && word_char(t[i])
}

/// `\b` at position `i`: exactly one of the characters around `i` is a word character.
pub open spec fn word_boundary(t: Seq<char>, i: int) -> bool {
    word_at(t, i - 1) != word_at(t, i)
}

/// Whether `w` occurs in `t` at position `s`.
pub open spec fn has_at(t: Seq<char>, s: int, w: Seq<char>) -> bool {
    0 <= s && s + w.len() <= t.len() && t.subrange(s, s + w.len()) == w
}

/// The characters that may end a URL: `[^[:punct:]\s]` or `/`.
pub open spec fn url_end_char(c: char) -> bool {
    (!ascii_punct(c) && !space_char(c)) || c == '/'
}

/// Where the ending `\([\w\d]+\) | [^[:punct:]\s] | /` of a URL ends when it
/// starts at `q`, trying the alternatives in order.
pub open spec fn url_ending(t: Seq<char>, q: int) -> Option<int> {
    let r = run_len(t, q + 1, CharClass::ParenInner) as int;
    if 0 <= q && q + 1 + r < t.len() && t[q] == '(' && r > 0 && t[q + 1 + r] == ')' {
        Some(q + 2 + r)
    } else if 0 <= q < t.len() && url_end_char(t[q]) {
        Some(q + 1)
    } else {
        None
    }
}

/// The end of the first match of body-then-ending when the body starts at `p`
/// and is at most `len` characters long: longer bodies are tried first.
pub open spec fn url_tail_within(t: Seq<char>, p: int, len: nat) -> Option<int>
    decreases len,
{
    if len == 0 {
        None
    } else {
        match url_ending(t, p + len) {
            Some(e) => Some(e),
            None => url_tail_within(t, p, (len - 1) as nat),
        }
    }
}

/// `[^\s()<>]+ (ending)` from `p`, greedy with backtracking.
pub open spec fn url_tail(t: Seq<char>, p: int) -> Option<int> {
    url_tail_within(t, p, run_len(t, p, CharClass::UrlBody))
}

/// `w` or `W`.
pub open spec fn is_w(c: char) -> bool {
    c == 'w' || c == 'W'
}

/// `www[.]` at `s`, the `w`s in either case.
pub open spec fn www_at(t: Seq<char>, s: int) -> bool {
    0 <= s && s + 4 <= t.len() && is_w(t[s]) && is_w(t[s + 1]) && is_w(t[s + 2]) && t[s + 3] == '.'
}

/// `[\w-]+://?` then the tail, from `s`: the second slash is taken when that
/// lets the rest match, else left to the body.
pub open spec fn url_scheme_match(t: Seq<char>, s: int) -> Option<int> {
    let c = s + run_len(t, s, CharClass::Scheme);
    if c > s && c + 1 < t.len() && t[c] == ':' && t[c + 1] == '/' {
        if c + 2 < t.len() && t[c + 2] == '/' {
            match url_tail(t, c + 3) {
                Some(e) => Some(e),
                None => url_tail(t, c + 2),
            }
        } else {
            url_tail(t, c + 2)
        }
    } else {
        None
    }
}

/// The end of the URL that starts at `s`, if one does:
/// `\b(([\w-]+://?|www[.])[^\s()<>]+(?:\([\w\d]+\)|([^[:punct:]\s]|/)))`, case-insensitive.
pub open spec fn url_match_at(t: Seq<char>, s: int) -> Option<int> {
    if 0 <= s < t.len() && word_boundary(t, s) {
        match url_scheme_match(t, s) {
            Some(e) => Some(e),
            None => if www_at(t, s) {
                url_tail(t, s + 4)
            } else {
                None
            },
        }
    } else {
        None
    }
}

/// `>>`, which marks a reference to a note in the text a user writes.
pub open spec fn reply_marker() -> Seq<char> {
    seq!['>', '>']
}

/// `&gt;&gt;`, the same marker once the text has been HTML-escaped.
pub open spec fn escaped_reply_marker() -> Seq<char> {
    seq!['&', 'g', 't', ';', '&', 'g', 't', ';']
}

/// A reference to a note at `s`: `\B(📝|marker)(\d+)`.  Gives where the
/// number starts and where the reference ends.
pub open spec fn note_ref_at(t: Seq<char>, s: int, marker: Seq<char>) -> Option<(int, int)> {
    if 0 <= s < t.len() && word_at(t, s - 1) == word_at(t, s) {
        let p: int = if t[s] == '📝' {
            s + 1
        } else if has_at(t, s, marker) {
            s + marker.len()
        } else {
            s
        };
        let d = run_len(t, p, CharClass::Digit) as int;
        if p > s && d > 0 {
            Some((p, p + d))
        } else {
            None
        }
    } else {
        None
    }
}

/// A mention at `s`: `\B(@)(\S+)`.  Gives where the name starts and where the
/// mention ends.
pub open spec fn mention_at(t: Seq<char>, s: int) -> Option<(int, int)> {
    if 0 <= s < t.len() && word_at(t, s - 1) == word_at(t, s) && t[s] == '@' {
        let r = run_len(t, s + 1, CharClass::NonSpace) as int;
        if r > 0 {
            Some((s + 1, s + 1 + r))
        } else {
            None
        }
    } else {
        None
    }
}

/// The three things that rendering links in a note.
#[derive(Clone, Copy, PartialEq, Eq, Debug)]
pub enum Rule {
    /// A URL, linked to itself.
    Url,
    /// A reference to a note (`📝N` or `&gt;&gt;N` in escaped text), linked to `/note/N`.
    NoteRef,
    /// A mention `@name`, linked to `/user/name`.
    Mention,
}

/// Where rule `r` matches at `s`: the start of the part that goes into the
/// link target, and the end of the match.
pub open spec fn rule_match(r: Rule, t: Seq<char>, s: int) -> Option<(int, int)> {
    match r {
        Rule::Url => match url_match_at(t, s) {
            Some(e) => Some((s, e)),
            None => None,
        },
        Rule::NoteRef => note_ref_at(t, s, escaped_reply_marker()),
        Rule::Mention => mention_at(t, s),
    }
}

/// How the link target of rule `r` begins.
pub open spec fn link_prefix(r: Rule) -> Seq<char> {
    match r {
        Rule::Url => "<a href=\""@,
        Rule::NoteRef => "<a href=\"/note/"@,
        Rule::Mention => "<a href=\"/user/"@,
    }
}

/// The link that replaces the match `t[s..e]` whose target part is `t[g..e]`.
pub open spec fn link_text(r: Rule, t: Seq<char>, s: int, g: int, e: int) -> Seq<char> {
    link_prefix(r) + t.subrange(g, e) + "\">"@ + t.subrange(s, e) + "</a>"@
}

/// `t[pos..]` with every match of rule `r` replaced by its link, matches found
/// left to right without overlapping.
pub open spec fn replace_from(r: Rule, t: Seq<char>, pos: int) -> Seq<char>
    decreases t.len() - pos,
{
    if pos < 0 || pos >= t.len() {
        seq![]
    } else {
        match rule_match(r, t, pos) {
            Some((g, e)) => if pos <= g <= e && pos < e <= t.len() {
                link_text(r, t, pos, g, e) + replace_from(r, t, e)
            } else {
                seq![t[pos]] + replace_from(r, t, pos + 1)
            },
            None => seq![t[pos]] + replace_from(r, t, pos + 1),
        }
    }
}

/// `t` with every match of rule `r` replaced by its link.
pub open spec fn replace_all(r: Rule, t: Seq<char>) -> Seq<char> {
    replace_from(r, t, 0)
}

/// The links of a note's (already sanitised) text: URLs first, then note
/// references, then mentions.
pub open spec fn linked_text(t: Seq<char>) -> Seq<char> {
    replace_all(Rule::Mention, replace_all(Rule::NoteRef, replace_all(Rule::Url, t)))
}

/// The first note reference at or after `pos`, with `>>` as the marker.
pub open spec fn first_reply_from(t: Seq<char>, pos: int) -> Option<(int, int)>
    decreases t.len() - pos,
{
    if pos < 0 || pos >= t.len() {
        None
    } else {
        match note_ref_at(t, pos, reply_marker()) {
            Some(m) => Some(m),
            None => first_reply_from(t, pos + 1),
        }
    }
}

/// The note that a text replies to: the number of its first reference, when
/// that number parses as an `i32`.
pub open spec fn reply_of(t: Seq<char>) -> Option<i32> {
    match first_reply_from(t, 0) {
        Some((p, e)) => parse_digits_i32(t.subrange(p, e)),
        None => None,
    }
}

/// The names of the mentions in `t[pos..]`, in order.
pub open spec fn mentions_from(t: Seq<char>, pos: int) -> Seq<Seq<char>>
    decreases t.len() - pos,
{
    if pos < 0 || pos >= t.len() {
        seq![]
    } else {
        match mention_at(t, pos) {
            Some((g, e)) => if pos < g < e <= t.len() {
                seq![t.subrange(g, e)] + mentions_from(t, e)
            } else {
                mentions_from(t, pos + 1)
            },
            None => mentions_from(t, pos + 1),
        }
    }
}

/// The names mentioned in `t`.
pub open spec fn mentions_of(t: Seq<char>) -> Seq<Seq<char>> {
    mentions_from(t, 0)
}


/// Whether class `k` holds `c`.
pub fn class_holds(k: CharClass, c: char) -> (b: bool)
    ensures
        b == in_class(k, c),
{
    match k {
        CharClass::Scheme => is_word(c) || c == '-',
        CharClass::UrlBody => !is_space(c) && c != '(' && c != ')' && c != '<' && c != '>',
        CharClass::ParenInner => is_word(c) || is_digit(c),
        CharClass::Digit => is_digit(c),
        CharClass::NonSpace => !is_space(c),
    }
}

/// The length of the run of class-`k` characters at `i`.
pub fn count_run(t: &[char], i: usize, k: CharClass) -> (n: usize)
    requires
        i <= t@.len(),
    ensures
        i + n <= t.len(),
        n == run_len(t@, i as int, k),
{
    let mut j: usize = i;
    while j < t.len() && class_holds(k, t[j])
        invariant
            i <= j <= t@.len(),
            run_len(t@, i as int, k) == (j - i) + run_len(t@, j as int, k),
        decreases t@.len() - j,
    {
        j = j + 1;
    }
    j - i
}

/// Whether a word character stands just before `s`.
fn word_before(t: &[char], s: usize) -> (b: bool)
    requires
        s <= t@.len(),
    ensures
        b == word_at(t@, s - 1),
{
    if s == 0 {
        false
    } else {
        is_word(t[s - 1])
    }
}

/// Whether a word character stands at `s`.
fn word_here(t: &[char], s: usize) -> (b: bool)
    requires
        s <= t@.len(),
    ensures
        b == word_at(t@, s as int),
{
    if s < t.len() {
        is_word(t[s])
    } else {
        false
    }
}

/// Whether `w` occurs in `t` at `s`.
fn has_at_exec(t: &[char], s: usize, w: &[char]) -> (b: bool)
    requires
        s <= t@.len(),
    ensures
        b == has_at(t@, s as int, w@),
{
    if t.len() - s < w.len() {
        return false;
    }
    let mut i: usize = 0;
    while i < w.len()
        invariant
            s + w.len() <= t.len(),
            0 <= i <= w@.len(),
            forall|j: int| 0 <= j < i ==> t@[s + j] == w@[j],
        decreases w@.len() - i,
    {
        if t[s + i] != w[i] {
            assert(t@.subrange(s as int, s + w@.len())[i as int] != w@[i as int]);
            return false;
        }
        i = i + 1;
    }
    assert(t@.subrange(s as int, s + w@.len()) =~= w@);
    true
}

/// The ending of a URL at `q`.
fn url_ending_exec(t: &[char], q: usize) -> (r: Option<usize>)
    requires
        q <= t@.len(),
    ensures
        match r {
            Some(e) => url_ending(t@, q as int) == Some(e as int),
            None => url_ending(t@, q as int) is None,
        },
{
    if q < t.len() && t[q] == '(' {
        let r: usize = count_run(t, q + 1, CharClass::ParenInner);
        if r > 0 && q + 1 + r < t.len() && t[q + 1 + r] == ')' {
            return Some(q + 2 + r);
        }
    }
    if q < t.len() {
        let c = t[q];
        if (!is_ascii_punct(c) && !is_space(c)) || c == '/' {
            return Some(q + 1);
        }
    }
    None
}

/// The body and ending of a URL from `p`.
fn url_tail_exec(t: &[char], p: usize) -> (r: Option<usize>)
    requires
        p <= t@.len(),
    ensures
        match r {
            Some(e) => url_tail(t@, p as int) == Some(e as int),
            None => url_tail(t@, p as int) is None,
        },
{
    let m: usize = count_run(t, p, CharClass::UrlBody);
    let mut len: usize = m;
    while len > 0
        invariant
            p + len <= t.len(),
            url_tail(t@, p as int) == url_tail_within(t@, p as int, len as nat),
        decreases len,
    {
        match url_ending_exec(t, p + len) {
            Some(e) => {
                return Some(e);
            },
            None => {},
        }
        len = len - 1;
    }
    None
}

/// The scheme form of a URL from `s`.
fn url_scheme_exec(t: &[char], s: usize) -> (r: Option<usize>)
    requires
        s < t@.len(),
    ensures
        match r {
            Some(e) => url_scheme_match(t@, s as int) == Some(e as int),
            None => url_scheme_match(t@, s as int) is None,
        },
{
    let r: usize = count_run(t, s, CharClass::Scheme);
    let c: usize = s + r;
    if r > 0 && t.len() - c >= 2 && t[c] == ':' && t[c + 1] == '/' {
        if t.len() - c >= 3 && t[c + 2] == '/' {
            match url_tail_exec(t, c + 3) {
                Some(e) => Some(e),
                None => url_tail_exec(t, c + 2),
            }
        } else {
            url_tail_exec(t, c + 2)
        }
    } else {
        None
    }
}

/// The URL that starts at `s`, if one does.
pub fn url_match_exec(t: &[char], s: usize) -> (r: Option<usize>)
    requires
        s <= t@.len(),
    ensures
        match r {
            Some(e) => url_match_at(t@, s as int) == Some(e as int),
            None => url_match_at(t@, s as int) is None,
        },
{
    if s < t.len() && word_before(t, s) != word_here(t, s) {
        match url_scheme_exec(t, s) {
            Some(e) => Some(e),
            None => {
                if t.len() - s >= 4 && (t[s] == 'w' || t[s] == 'W') && (t[s + 1] == 'w' || t[s
                    + 1] == 'W') && (t[s + 2] == 'w' || t[s + 2] == 'W') && t[s + 3] == '.' {
                    url_tail_exec(t, s + 4)
                } else {
                    None
                }
            },
        }
    } else {
        None
    }
}

/// The note reference at `s`, with `marker` as the alternative to `📝`.
pub fn note_ref_exec(t: &[char], s: usize, marker: &[char]) -> (r: Option<(usize, usize)>)
    requires
        s <= t@.len(),
    ensures
        match r {
            Some((p, e)) => note_ref_at(t@, s as int, marker@) == Some((p as int, e as int)),
            None => note_ref_at(t@, s as int, marker@) is None,
        },
        r matches Some((p, e)) ==> s < p < e <= t@.len(),
{
    if s < t.len() && word_before(t, s) == word_here(t, s) {
        let p: usize = if t[s] == '📝' {
            s + 1
        } else if has_at_exec(t, s, marker) {
            s + marker.len()
        } else {
            s
        };
        let d: usize = count_run(t, p, CharClass::Digit);
        if p > s && d > 0 {
            Some((p, p + d))
        } else {
            None
        }
    } else {
        None
    }
}

/// The mention at `s`.
pub fn mention_exec(t: &[char], s: usize) -> (r: Option<(usize, usize)>)
    requires
        s <= t@.len(),
    ensures
        match r {
            Some((g, e)) => mention_at(t@, s as int) == Some((g as int, e as int)),
            None => mention_at(t@, s as int) is None,
        },
        r matches Some((g, e)) ==> s < g < e <= t@.len(),
{
    if s < t.len() && word_before(t, s) == word_here(t, s) && t[s] == '@' {
        let r: usize = count_run(t, s + 1, CharClass::NonSpace);
        if r > 0 {
            Some((s + 1, s + 1 + r))
        } else {
            None
        }
    } else {
        None
    }
}

/// Where rule `r` matches at `s`.
pub fn rule_match_exec(r: Rule, t: &[char], s: usize) -> (m: Option<(usize, usize)>)
    requires
        s <= t@.len(),
    ensures
        match m {
            Some((g, e)) => rule_match(r, t@, s as int) == Some((g as int, e as int)),
            None => rule_match(r, t@, s as int) is None,
        },
{
    match r {
        Rule::Url => match url_match_exec(t, s) {
            Some(e) => Some((s, e)),
            None => None,
        },
        Rule::NoteRef => {
            let marker = vec!['&', 'g', 't', ';', '&', 'g', 't', ';'];
            assert(marker@ == escaped_reply_marker());
            note_ref_exec(t, s, marker.as_slice())
        },
        Rule::Mention => mention_exec(t, s),
    }
}

/// How the link target of rule `r` begins.
fn link_prefix_exec(r: Rule) -> (p: &'static str)
    ensures
        p@ == link_prefix(r),
{
    match r {
        Rule::Url => "<a href=\"",
        Rule::NoteRef => "<a href=\"/note/",
        Rule::Mention => "<a href=\"/user/",
    }
}

/// One step of `replace_from`.
proof fn lemma_replace_from_unfold(r: Rule, t: Seq<char>, pos: int)
    requires
        0 <= pos < t.len(),
    ensures
        replace_from(r, t, pos) == match rule_match(r, t, pos) {
            Some((g, e)) => if pos <= g <= e && pos < e <= t.len() {
                link_text(r, t, pos, g, e) + replace_from(r, t, e)
            } else {
                seq![t[pos]] + replace_from(r, t, pos + 1)
            },
            None => seq![t[pos]] + replace_from(r, t, pos + 1),
        },
{
}

/// Appends the link that replaces the match `t[s..e]` with target part `t[g..e]`.
fn append_link(out: &mut String, r: Rule, t: &[char], s: usize, g: usize, e: usize)
    requires
        s <= g <= e <= t@.len(),
    ensures
        final(out)@ == old(out)@ + link_text(r, t@, s as int, g as int, e as int),
{
    push_str(out, link_prefix_exec(r));
    push_slice(out, t, g, e);
    push_str(out, "\">");
    push_slice(out, t, s, e);
    push_str(out, "</a>");
}

/// `t` with every match of rule `r` replaced by its link.
pub fn replace_all_exec(r: Rule, t: &[char]) -> (out: String)
    ensures
        out@ == replace_all(r, t@),
{
    let mut out = String::new();
    let mut pos: usize = 0;
    while pos < t.len()
        invariant
            pos <= t@.len(),
            out@ + replace_from(r, t@, pos as int) == replace_all(r, t@),
        decreases t@.len() - pos,
    {
        let ghost before = out@;
        proof {
            lemma_replace_from_unfold(r, t@, pos as int);
        }
        let m = rule_match_exec(r, t, pos);
        let mut linked = false;
        if let Some((g, e)) = m {
            if pos <= g && g <= e && pos < e && e <= t.len() {
                append_link(&mut out, r, t, pos, g, e);
                pos = e;
                linked = true;
            }
        }
        if !linked {
            out.push(t[pos]);
            pos = pos + 1;
        }
    }
    assert(out@ == replace_all(r, t@));
    out
}


/// The first note reference in `t`, with `>>` as the marker.
pub fn first_reply_exec(t: &[char]) -> (r: Option<(usize, usize)>)
    ensures
        match r {
            Some((p, e)) => first_reply_from(t@, 0) == Some((p as int, e as int)) && p < e <= t@.len(),
            None => first_reply_from(t@, 0) is None,
        },
{
    let marker = vec!['>', '>'];
    assert(marker@ == reply_marker());
    let mut pos: usize = 0;
    while pos < t.len()
        invariant
            pos <= t@.len(),
            marker@ == reply_marker(),
            first_reply_from(t@, 0) == first_reply_from(t@, pos as int),
        decreases t@.len() - pos,
    {
        match note_ref_exec(t, pos, marker.as_slice()) {
            Some((p, e)) => {
                return Some((p, e));
            },
            None => {},
        }
        pos = pos + 1;
    }
    None
}

/// The names mentioned in `t`, each as a `String`.
pub fn mentions_exec(t: &[char]) -> (names: Vec<String>)
    ensures
        names@.len() == mentions_of(t@).len(),
        forall|i: int| 0 <= i < names@.len() ==> #[trigger] names@[i]@ == mentions_of(t@)[i],
{
    let mut names: Vec<String> = Vec::new();
    let mut pos: usize = 0;
    while pos < t.len()
        invariant
            pos <= t@.len(),
            names@.len() + mentions_from(t@, pos as int).len() == mentions_of(t@).len(),
            forall|i: int| 0 <= i < names@.len() ==> #[trigger] names@[i]@ == mentions_of(t@)[i],
            forall|i: int|
                0 <= i < mentions_from(t@, pos as int).len() ==> mentions_of(t@)[names@.len() + i]
                    == #[trigger] mentions_from(t@, pos as int)[i],
        decreases t@.len() - pos,
    {
        match mention_exec(t, pos) {
            Some((g, e)) => {
                let mut name = String::new();
                push_slice(&mut name, t, g, e);
                proof {
                    let rest = mentions_from(t@, e as int);
                    assert(mentions_from(t@, pos as int) == seq![t@.subrange(g as int, e as int)] + rest);
                    assert(name@ == t@.subrange(g as int, e as int));
                    assert(mentions_from(t@, pos as int)[0] == name@);
                    assert forall|i: int| 0 <= i < rest.len() implies mentions_of(t@)[names@.len() + 1 + i]
                        == #[trigger] rest[i] by {
                        assert(mentions_from(t@, pos as int)[1 + i] == rest[i]);
                    }
                }
                names.push(name);
                pos = e;
            },
            None => {
                assert(mentions_from(t@, pos as int) == mentions_from(t@, pos + 1));
                pos = pos + 1;
            },
        }
    }
    names
}

/// A run of ASCII digits that reaches the end of the text is one `\d` run.
proof fn lemma_digit_run_to_end(t: Seq<char>, j: int)
    requires
        0 <= j <= t.len(),
        forall|i: int| j <= i < t.len() ==> is_ascii_digit(#[trigger] t[i]),
    ensures
        run_len(t, j, CharClass::Digit) == t.len() - j,
    decreases t.len() - j,
{
    if j < t.len() {
        assert(is_ascii_digit(t[j]));
        lemma_digit_run_to_end(t, j + 1);
    }
}

/// A note whose text is `>>N` or `📝N` replies to note `N`: the numeral that
/// `push_u64` writes for `N` (with `0 <= N <= i32::MAX`), behind either
/// marker, reads back as the reply target.
pub proof fn lemma_reply_to_marked_number(n: nat)
    requires
        n <= i32::MAX,
    ensures
        reply_of(reply_marker() + nat_text(n)) == Some(n as i32),
        reply_of(seq!['📝'] + nat_text(n)) == Some(n as i32),
{
    let d = nat_text(n);
    lemma_nat_text_value(n);

    let t = reply_marker() + d;
    assert(t.subrange(0, 2) == reply_marker());
    assert(has_at(t, 0, reply_marker()));
    assert forall|i: int| 2 <= i < t.len() implies is_ascii_digit(#[trigger] t[i]) by {
        assert(t[i] == d[i - 2]);
    }
    lemma_digit_run_to_end(t, 2);
    assert(!word_at(t, 0));
    assert(note_ref_at(t, 0, reply_marker()) == Some((2int, t.len() as int)));
    assert(t.subrange(2, t.len() as int) == d);

    let u = seq!['📝'] + d;
    assert(u[0] == '📝');
    assert(!word_at(u, 0));
    assert forall|i: int| 1 <= i < u.len() implies is_ascii_digit(#[trigger] u[i]) by {
        assert(u[i] == d[i - 1]);
    }
    lemma_digit_run_to_end(u, 1);
    assert(note_ref_at(u, 0, reply_marker()) == Some((1int, u.len() as int)));
    assert(u.subrange(1, u.len() as int) == d);
}

/// A run of class-`k` characters from `s`: its characters are in the class,
/// it stays within the text, and the character after it is not in the class.
proof fn lemma_run_len(t: Seq<char>, s: int, k: CharClass)
    requires
        0 <= s,
    ensures
        run_len(t, s, k) > 0 ==> s + run_len(t, s, k) <= t.len(),
        forall|i: int| s <= i < s + run_len(t, s, k) ==> in_class(k, #[trigger] t[i]),
        s + run_len(t, s, k) < t.len() ==> !in_class(k, t[s + run_len(t, s, k)]),
    decreases t.len() - s,
{
    if 0 <= s < t.len() && in_class(k, t[s]) {
        lemma_run_len(t, s + 1, k);
    }
}

/// A character that can end a URL wherever it stands: an ASCII letter or
/// digit, or `/`.
pub open spec fn plain_url_char(c: char) -> bool {
    ('a' <= c && c <= 'z') || ('A' <= c && c <= 'Z') || ('0' <= c && c <= '9') || c == '/'
}

/// The URL body is tried longest first: when every longer body failed to end,
/// a match never stops just before a letter, digit or `/`, unless it ended
/// with a parenthesised part.
proof fn lemma_url_tail_within_greedy(t: Seq<char>, p: int, len: nat)
    requires
        0 <= p,
        len <= run_len(t, p, CharClass::UrlBody),
        forall|k: int| len < k <= run_len(t, p, CharClass::UrlBody) ==> #[trigger] url_ending(t, p + k) is None,
    ensures
        match url_tail_within(t, p, len) {
            Some(e) => e < t.len() && plain_url_char(t[e]) ==> t[e - 1] == ')',
            None => true,
        },
    decreases len,
{
    lemma_run_len(t, p, CharClass::UrlBody);
    let r = run_len(t, p, CharClass::UrlBody) as int;
    if len > 0 {
        let q = p + len;
        match url_ending(t, q) {
            Some(e) => {
                let rp = run_len(t, q + 1, CharClass::ParenInner) as int;
                if e < t.len() && plain_url_char(t[e]) && !(0 <= q && q + 1 + rp < t.len() && t[q] == '('
                    && rp > 0 && t[q + 1 + rp] == ')') {
                    assert(e == q + 1);
                    if len < r {
                        assert(url_ending(t, p + (len + 1)) is None);
                        assert(url_end_char(t[e]));
                        assert(false);
                    } else {
                        assert(!in_class(CharClass::UrlBody, t[q]));
                        assert(false);
                    }
                }
            },
            None => {
                lemma_url_tail_within_greedy(t, p, (len - 1) as nat);
            },
        }
    }
}

/// The greedy URL tail from `p` (see `lemma_url_tail_within_greedy`).
proof fn lemma_url_tail_greedy(t: Seq<char>, p: int)
    requires
        0 <= p,
    ensures
        match url_tail(t, p) {
            Some(e) => e < t.len() && plain_url_char(t[e]) ==> t[e - 1] == ')',
            None => true,
        },
{
    lemma_url_tail_within_greedy(t, p, run_len(t, p, CharClass::UrlBody));
}

/// A URL is linked whole: a URL found at `s` never stops just before a
/// letter, digit or `/` that follows it, unless it ends with a parenthesised
/// part.  In particular a URL whose last character is `/` keeps its `/`.
pub proof fn lemma_url_keeps_its_last_char(t: Seq<char>, s: int)
    ensures
        match url_match_at(t, s) {
            Some(e) => e < t.len() && plain_url_char(t[e]) ==> t[e - 1] == ')',
            None => true,
        },
{
    if 0 <= s < t.len() {
        let c = s + run_len(t, s, CharClass::Scheme);
        lemma_url_tail_greedy(t, c + 2);
        lemma_url_tail_greedy(t, c + 3);
        lemma_url_tail_greedy(t, s + 4);
    }
}

/// Whether the name `x` is `t[g..e]`, after an `@` at `g - 1` past `lo`: it
/// holds no white space, and white space or the end of the text follows it.
pub open spec fn name_at(t: Seq<char>, x: Seq<char>, g: int, e: int, lo: int) -> bool {
    &&& lo < g < e <= t.len()
    &&& t[g - 1] == '@'
    &&& x == t.subrange(g, e)
    &&& (e == t.len() || space_char(t[e]))
    &&& forall|i: int| g <= i < e ==> !space_char(#[trigger] t[i])
}

/// Where the `j`-th mention found from `pos` comes from (see `name_at`).
proof fn lemma_mention_source(t: Seq<char>, pos: int, j: int) -> (ge: (int, int))
    requires
        0 <= pos,
        0 <= j < mentions_from(t, pos).len(),
    ensures
        name_at(t, mentions_from(t, pos)[j], ge.0, ge.1, pos),
    decreases t.len() - pos,
{
    let ms = mentions_from(t, pos);
    match mention_at(t, pos) {
        Some((g, e)) => {
            if pos < g < e <= t.len() {
                let rest = mentions_from(t, e);
                assert(ms == seq![t.subrange(g, e)] + rest);
                if j == 0 {
                    lemma_run_len(t, pos + 1, CharClass::NonSpace);
                    assert(forall|i: int| g <= i < e ==> in_class(CharClass::NonSpace, #[trigger] t[i]));
                    assert(ms[0] == t.subrange(g, e));
                    (g, e)
                } else {
                    assert(ms[j] == rest[j - 1]);
                    lemma_mention_source(t, e, j - 1)
                }
            } else {
                assert(ms == mentions_from(t, pos + 1));
                lemma_mention_source(t, pos + 1, j)
            }
        },
        None => {
            assert(ms == mentions_from(t, pos + 1));
            lemma_mention_source(t, pos + 1, j)
        },
    }
}

/// A mentioned name is the whole run of non-space characters after its `@`:
/// it holds no white space (no space, tab, line break or carriage return),
/// and white space or the end of the text follows it.
pub proof fn lemma_mention_names_stop_at_space(t: Seq<char>)
    ensures
        forall|j: int, i: int|
            0 <= j < mentions_of(t).len() && 0 <= i < mentions_of(t)[j].len() ==> {
                let c = #[trigger] mentions_of(t)[j][i];
                !space_char(c) && c != ' ' && c != '\t' && c != '\n' && c != '\r'
            },
        forall|j: int|
            #![trigger mentions_of(t)[j]]
            0 <= j < mentions_of(t).len() ==> exists|g: int, e: int| {
                &&& 0 < g < e <= t.len()
                &&& t[g - 1] == '@'
                &&& #[trigger] t.subrange(g, e) == mentions_of(t)[j]
                &&& (e == t.len() || space_char(t[e]))
            },
{
    let ms = mentions_of(t);
    assert forall|j: int| #![trigger ms[j]] 0 <= j < ms.len() implies exists|g: int, e: int| {
        &&& 0 < g < e <= t.len()
        &&& t[g - 1] == '@'
        &&& #[trigger] t.subrange(g, e) == ms[j]
        &&& (e == t.len() || space_char(t[e]))
    } by {
        let (g, e) = lemma_mention_source(t, 0, j);
        assert(t.subrange(g, e) == ms[j]);
    }
    assert forall|j: int, i: int| 0 <= j < ms.len() && 0 <= i < ms[j].len() implies {
        let c = #[trigger] ms[j][i];
        !space_char(c) && c != ' ' && c != '\t' && c != '\n' && c != '\r'
    } by {
        let (g, e) = lemma_mention_source(t, 0, j);
        assert(ms[j][i] == t[g + i]);
        assert(!space_char(t[g + i]));
    }
}

/// No reference is found from `pos` exactly when none starts there or later.
proof fn lemma_first_reply_from_none(t: Seq<char>, pos: int)
    requires
        0 <= pos,
    ensures
        (first_reply_from(t, pos) is None) <==> (forall|s: int|
            pos <= s < t.len() ==> #[trigger] note_ref_at(t, s, reply_marker()) is None),
    decreases t.len() - pos,
{
    if pos < t.len() {
        lemma_first_reply_from_none(t, pos + 1);
        if first_reply_from(t, pos) is None {
            assert forall|s: int| pos <= s < t.len() implies #[trigger] note_ref_at(t, s, reply_marker()) is None by {
                if s > pos {
                    assert(note_ref_at(t, s, reply_marker()) is None);
                }
            }
        }
    }
}

/// The reference found from `pos` is the first one: when one starts at `s`
/// and none starts between `pos` and `s`, it is the one found.
proof fn lemma_first_reply_from_first(t: Seq<char>, pos: int, s: int)
    requires
        0 <= pos <= s < t.len(),
        note_ref_at(t, s, reply_marker()) is Some,
        forall|s2: int| pos <= s2 < s ==> #[trigger] note_ref_at(t, s2, reply_marker()) is None,
    ensures
        first_reply_from(t, pos) == note_ref_at(t, s, reply_marker()),
    decreases s - pos,
{
    if pos < s {
        assert(note_ref_at(t, pos, reply_marker()) is None);
        lemma_first_reply_from_first(t, pos + 1, s);
    }
}

/// The note a text replies to is given by its first reference, wherever it
/// stands (after a line break too): with no reference the text replies to
/// nothing, and with a first reference at `s` the text replies to that
/// reference's number.
pub proof fn lemma_reply_is_first_reference(t: Seq<char>)
    ensures
        (forall|s: int| 0 <= s < t.len() ==> #[trigger] note_ref_at(t, s, reply_marker()) is None) ==> reply_of(t)
            is None,
        forall|s: int|
            0 <= s < t.len() && (forall|s2: int| 0 <= s2 < s ==> note_ref_at(t, s2, reply_marker()) is None)
                ==> match #[trigger] note_ref_at(t, s, reply_marker()) {
                Some((p, e)) => reply_of(t) == parse_digits_i32(t.subrange(p, e)),
                None => true,
            },
{
    lemma_first_reply_from_none(t, 0);
    assert forall|s: int|
        0 <= s < t.len() && (forall|s2: int| 0 <= s2 < s ==> note_ref_at(t, s2, reply_marker()) is None)
            implies match #[trigger] note_ref_at(t, s, reply_marker()) {
            Some((p, e)) => reply_of(t) == parse_digits_i32(t.subrange(p, e)),
            None => true,
        } by {
        if note_ref_at(t, s, reply_marker()) is Some {
            lemma_first_reply_from_first(t, 0, s);
        }
    }
}

/// A reply written after a line break counts: when no reference starts in
/// the text `p` before it, `p`, a line break, then `>>N` replies to note `N`.
pub proof fn lemma_reply_after_line_break(p: Seq<char>, n: nat)
    requires
        n <= i32::MAX,
        forall|s: int|
            0 <= s < p.len() ==> #[trigger] note_ref_at(
                p + seq!['\n'] + reply_marker() + nat_text(n),
                s,
                reply_marker(),
            ) is None,
    ensures
        reply_of(p + seq!['\n'] + reply_marker() + nat_text(n)) == Some(n as i32),
{
    let d = nat_text(n);
    let t = p + seq!['\n'] + reply_marker() + d;
    let m = p.len() as int;
    lemma_nat_text_value(n);
    assert(t[m] == '\n');
    assert(!has_at(t, m, reply_marker())) by {
        assert(t.subrange(m, m + 2)[0] == '\n');
    }
    assert(note_ref_at(t, m, reply_marker()) is None) by {
        assert(run_len(t, m, CharClass::Digit) == 0) by {
            assert(!digit_class('\n'));
        }
    }
    assert(t.subrange(m + 1, m + 3) == reply_marker());
    assert(has_at(t, m + 1, reply_marker()));
    assert forall|i: int| m + 3 <= i < t.len() implies is_ascii_digit(#[trigger] t[i]) by {
        assert(t[i] == d[i - m - 3]);
    }
    lemma_digit_run_to_end(t, m + 3);
    assert(!word_at(t, m));
    assert(!word_at(t, m + 1));
    assert(note_ref_at(t, m + 1, reply_marker()) == Some((m + 3, t.len() as int)));
    assert(t.subrange(m + 3, t.len() as int) == d);
    assert(forall|s2: int| 0 <= s2 < m + 1 ==> #[trigger] note_ref_at(t, s2, reply_marker()) is None);
    lemma_first_reply_from_first(t, 0, m + 1);
}

} // verus!
