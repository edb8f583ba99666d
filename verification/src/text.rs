//! Character-level helpers shared by the note, user and ActivityPub modules:
//! appending to `String`s, reading a `&str` as characters, and decimal numerals.
use vstd::prelude::*;

verus! {

/// `String::push` appends one character.
pub assume_specification[ String::push ](s: &mut String, ch: char)
    ensures
        final(s)@ == old(s)@.push(ch),
;

/// The characters of `s`, in order.
pub fn chars_of(s: &str) -> (v: Vec<char>)
    ensures
        v@ == s@,
{
    let mut v: Vec<char> = Vec::new();
    for c in it: s.chars()
        invariant
            v@ == it.seq().take(it.index() as int),
            it.seq() == s@,
    {
        v.push(c);
    }
    v
}


/// Appends the characters `v[from..to]`.
pub fn push_slice(out: &mut String, v: &[char], from: usize, to: usize)
    requires
        from <= to <= v@.len(),
    ensures
        final(out)@ == old(out)@ + v@.subrange(from as int, to as int),
{
    let mut i = from;
    while i < to
        invariant
            from <= i <= to <= v@.len(),
            out@ == old(out)@ + v@.subrange(from as int, i as int),
        decreases to - i,
    {
        out.push(v[i]);
        i = i + 1;
        assert(v@.subrange(from as int, i as int) == v@.subrange(from as int, (i - 1) as int).push(
            v@[i - 1],
        ));
    }
}

/// Appends the characters of `s`.
pub fn push_str(out: &mut String, s: &str)
    ensures
        final(out)@ == old(out)@ + s@,
{
    let v = chars_of(s);
    push_slice(out, v.as_slice(), 0, v.len());
    assert(v@.subrange(0, v@.len() as int) == s@);
}

/// The character of the decimal digit `d` (`0 <= d < 10`).
pub open spec fn digit_symbol(d: int) -> char {
    (('0' as int) + d) as char
}

/// The decimal numeral of `n`, without sign or leading zeros ("0" for zero).
pub open spec fn nat_text(n: nat) -> Seq<char>
    decreases n,
{
    if n < 10 {
        seq![digit_symbol(n as int)]
    } else {
        nat_text(n / 10) + seq![digit_symbol((n % 10) as int)]
    }
}

/// The decimal numeral of `n` as Rust's `Display` writes an integer: a leading
/// `-` for negative numbers, then the digits of the magnitude.
pub open spec fn int_text(n: int) -> Seq<char> {
    if n < 0 {
        seq!['-'] + nat_text((-n) as nat)
    } else {
        nat_text(n as nat)
    }
}

/// Appends the decimal digits of `n`.
pub fn push_u64(out: &mut String, n: u64)
    ensures
        final(out)@ == old(out)@ + nat_text(n as nat),
    decreases n,
{
    if n < 10 {
        let d = n as u8;
        out.push((48u8 + d) as char);
    } else {
        push_u64(out, n / 10);
        let d = (n % 10) as u8;
        out.push((48u8 + d) as char);
        assert(nat_text(n as nat) == nat_text((n / 10) as nat) + seq![digit_symbol((n % 10) as int)]);
    }
}

/// Appends `n` as `Display` writes it.
pub fn push_i64(out: &mut String, n: i64)
    ensures
        final(out)@ == old(out)@ + int_text(n as int),
{
    if n < 0 {
        out.push('-');
        let m: u64 = if n == i64::MIN { 9223372036854775808u64 } else { (-n) as u64 };
        push_u64(out, m);
        assert(old(out)@.push('-') + nat_text(m as nat) == old(out)@ + (seq!['-'] + nat_text(m as nat)));
    } else {
        push_u64(out, n as u64);
    }
}

/// The numeral `n` as `Display` writes it.
pub fn i64_text(n: i64) -> (s: String)
    ensures
        s@ == int_text(n as int),
{
    let mut s = String::new();
    push_i64(&mut s, n);
    s
}

/// Whether `c` is one of the ASCII digits `0`..`9`.
pub open spec fn is_ascii_digit(c: char) -> bool {
    '0' <= c && c <= '9'
}

/// The number that a sequence of ASCII digits denotes in decimal.
pub open spec fn digits_value(s: Seq<char>) -> nat
    decreases s.len(),
{
    if s.len() == 0 {
        0
    } else {
        digits_value(s.drop_last()) * 10 + ((s.last() as int) - ('0' as int)) as nat
    }
}

/// What `str::parse::<i32>` gives for a string of one or more decimal digit
/// characters (of any script): the value when every digit is an ASCII digit and
/// the value fits in an `i32`, and no value otherwise.
pub open spec fn parse_digits_i32(s: Seq<char>) -> Option<i32> {
    if s.len() > 0 && (forall|i: int| 0 <= i < s.len() ==> is_ascii_digit(#[trigger] s[i]))
        && digits_value(s) <= i32::MAX {
        Some(digits_value(s) as i32)
    } else {
        None
    }
}

/// `str::parse::<i32>` on the digit characters `v[from..to]` (`from < to`).
pub fn parse_digits(v: &[char], from: usize, to: usize) -> (r: Option<i32>)
    requires
        from < to <= v@.len(),
    ensures
        r == parse_digits_i32(v@.subrange(from as int, to as int)),
{
    let ghost s = v@.subrange(from as int, to as int);
    let mut acc: i64 = 0;
    let mut i = from;
    while i < to
        invariant
            from <= i <= to <= v@.len(),
            s == v@.subrange(from as int, to as int),
            forall|j: int| from <= j < i ==> is_ascii_digit(#[trigger] v@[j]),
            acc == digits_value(v@.subrange(from as int, i as int)),
            acc <= i32::MAX,
        decreases to - i,
    {
        let c = v[i];
        assert(v@.subrange(from as int, (i + 1) as int).drop_last() == v@.subrange(from as int, i as int));
        if !('0' <= c && c <= '9') {
            assert(!is_ascii_digit(s[i - from]));
            return None;
        }
        let d = (c as u32 - '0' as u32) as i64;
        let next = acc * 10 + d;
        if next > i32::MAX as i64 {
            proof {
                if forall|j: int| 0 <= j < s.len() ==> is_ascii_digit(#[trigger] s[j]) {
                    lemma_digits_value_prefix_monotone(s, (i + 1 - from) as int);
                    assert(s.subrange(0, (i + 1 - from) as int) == v@.subrange(from as int, (i + 1) as int));
                }
            }
            return None;
        }
        acc = next;
        i = i + 1;
    }
    assert(v@.subrange(from as int, i as int) == s);
    Some(acc as i32)
}

/// The value of a digit string is at least the value of any of its prefixes.
pub proof fn lemma_digits_value_prefix_monotone(s: Seq<char>, k: int)
    requires
        0 <= k <= s.len(),
        forall|i: int| 0 <= i < s.len() ==> is_ascii_digit(#[trigger] s[i]),
    ensures
        digits_value(s.subrange(0, k)) <= digits_value(s),
    decreases s.len() - k,
{
    if k < s.len() {
        lemma_digits_value_prefix_monotone(s, k + 1);
        let t = s.subrange(0, k + 1);
        assert(t.drop_last() == s.subrange(0, k));
        assert(is_ascii_digit(t.last()));
    } else {
        assert(s.subrange(0, k) == s);
    }
}

/// The numeral of `n` is a non-empty string of ASCII digits whose value is `n`:
/// reading back what `push_u64` writes gives the number.
pub proof fn lemma_nat_text_value(n: nat)
    ensures
        nat_text(n).len() > 0,
        forall|i: int| 0 <= i < nat_text(n).len() ==> is_ascii_digit(#[trigger] nat_text(n)[i]),
        digits_value(nat_text(n)) == n,
    decreases n,
{
    if n < 10 {
        assert(digit_symbol(n as int) as int == 48 + n);
        assert(nat_text(n).drop_last() == Seq::<char>::empty());
        assert(digits_value(Seq::<char>::empty()) == 0);
    }
    if n >= 10 {
        lemma_nat_text_value(n / 10);
        let t = nat_text(n);
        assert(t.drop_last() == nat_text(n / 10));
        assert(t.last() == digit_symbol((n % 10) as int));
        assert(digit_symbol((n % 10) as int) as int == 48 + n % 10);
        assert(digits_value(t) == digits_value(nat_text(n / 10)) * 10 + n % 10);
        assert((n / 10) * 10 + n % 10 == n) by (nonlinear_arith);
        assert forall|i: int| 0 <= i < t.len() implies is_ascii_digit(#[trigger] t[i]) by {
            if i < t.len() - 1 {
                assert(t[i] == nat_text(n / 10)[i]);
            }
        }
    }
}

} // verus!
