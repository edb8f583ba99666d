//! The character classes `\w`, `\d` and `\s` of the `regex` crate, in which
//! the note grammar in `markup` is stated.  On ASCII the classes are stated
//! here; beyond ASCII they are what the crate's Unicode tables say.
use vstd::prelude::*;

verus! {

/// Whether `c` is an ASCII character.
pub open spec fn is_ascii_char(c: char) -> bool {
    (c as u32) < 128
}

/// Whether the `regex` crate's `\w` (Unicode word characters) holds `c`, for `c` beyond ASCII.
pub uninterp spec fn regex_word_beyond_ascii(c: char) -> bool;

/// Whether the `regex` crate's `\d` (Unicode decimal digits, `\p{Nd}`) holds `c`, for `c` beyond ASCII.
pub uninterp spec fn regex_digit_beyond_ascii(c: char) -> bool;

/// Whether the `regex` crate's `\s` (`\p{White_Space}`) holds `c`, for `c` beyond ASCII.
pub uninterp spec fn regex_space_beyond_ascii(c: char) -> bool;

/// `\w`: on ASCII the letters, the digits and `_`.  The note marker `📝`
/// (U+1F4DD, a symbol) is no word character: no range of the crate's
/// Unicode word table holds it.
pub open spec fn word_char(c: char) -> bool {
    if is_ascii_char(c) {
        ('0' <= c && c <= '9') || ('A' <= c && c <= 'Z') || ('a' <= c && c <= 'z') || c == '_'
    } else {
        c != '📝' && regex_word_beyond_ascii(c)
    }
}

/// `\d`: on ASCII the digits `0` to `9`.
pub open spec fn digit_class(c: char) -> bool {
    if is_ascii_char(c) {
        '0' <= c && c <= '9'
    } else {
        regex_digit_beyond_ascii(c)
    }
}

/// `\s`: on ASCII the tab, line feed, vertical tab, form feed, carriage return and space.
pub open spec fn space_char(c: char) -> bool {
    if is_ascii_char(c) {
        ('\t' <= c && c <= '\r') || c == ' '
    } else {
        regex_space_beyond_ascii(c)
    }
}

/// `[[:punct:]]`, which the `regex` crate takes as ASCII punctuation only.
pub open spec fn ascii_punct(c: char) -> bool {
    ('!' <= c && c <= '/') || (':' <= c && c <= '@') || ('[' <= c && c <= '`') || ('{' <= c
        && c <= '~')
}

/// Tests `c` against the `regex` crate's `\w`: compiles the pattern `^\w$`
/// (`regex::Regex::new`) and matches it on the one-character string `c`
/// (`Regex::is_match`).  Claimed: the answer is the class as described on
/// `word_char`; what the class holds beyond ASCII, but for `📝`, is not stated.
#[verifier::external_body]
pub(crate) fn is_word(c: char) -> (b: bool)
    ensures
        b == word_char(c),
        !is_ascii_char(c) && c != '📝' ==> b == regex_word_beyond_ascii(c),
{
    let mut buf = [0u8; 4];
    regex::Regex::new(r"^\w$").unwrap().is_match(c.encode_utf8(&mut buf))
}

/// Tests `c` against the `regex` crate's `\d` by matching `^\d$` on the
/// one-character string `c`.  Claimed: the answer is the class as described on
/// `digit_class`; beyond ASCII nothing is stated.
#[verifier::external_body]
pub(crate) fn is_digit(c: char) -> (b: bool)
    ensures
        b == digit_class(c),
        !is_ascii_char(c) ==> b == regex_digit_beyond_ascii(c),
{
    let mut buf = [0u8; 4];
    regex::Regex::new(r"^\d$").unwrap().is_match(c.encode_utf8(&mut buf))
}

/// Tests `c` against the `regex` crate's `\s` by matching `^\s$` on the
/// one-character string `c`.  Claimed: the answer is the class as described on
/// `space_char`; beyond ASCII nothing is stated.
#[verifier::external_body]
pub(crate) fn is_space(c: char) -> (b: bool)
    ensures
        b == space_char(c),
        !is_ascii_char(c) ==> b == regex_space_beyond_ascii(c),
{
    let mut buf = [0u8; 4];
    regex::Regex::new(r"^\s$").unwrap().is_match(c.encode_utf8(&mut buf))
}

/// `[[:punct:]]` on one character.
pub fn is_ascii_punct(c: char) -> (b: bool)
    ensures
        b == ascii_punct(c),
{
    ('!' <= c && c <= '/') || (':' <= c && c <= '@') || ('[' <= c && c <= '`') || ('{' <= c
        && c <= '~')
}

} // verus!
