//! HTTP signatures on ActivityPub requests: the `Signature` header the server
//! puts on what it sends, and the parts of a received request's `Signature`
//! header that are checked against the sender's key.  The framing (signing
//! string and header) is done by `http-signature-normalization`, in the form
//! of the scheme without the `(created)` and `(expires)` fields, which asks
//! for a `date` header instead; the cryptography is in `signature`.
use vstd::prelude::*;
use vstd::utf8::encode_utf8;
use crate::ap::{path_and_query, request_target};
use crate::signature::{sign_signing_string, signature_field};
use crate::text::chars_of;

verus! {

/// The names and values of a request's headers.
pub open spec fn header_views(headers: Seq<(String, String)>) -> Seq<(Seq<char>, Seq<char>)> {
    headers.map_values(|h: (String, String)| (h.0@, h.1@))
}

/// A character of a lower-case HTTP header name (a token, RFC 7230).
pub open spec fn token_char(c: char) -> bool {
    ||| 'a' <= c <= 'z'
    ||| '0' <= c <= '9'
    ||| c == '!' || c == '#' || c == '$' || c == '%' || c == '&' || c == '\'' || c == '*'
    ||| c == '+' || c == '-' || c == '.' || c == '^' || c == '_' || c == '`' || c == '|' || c == '~'
}

/// Whether `n` is a lower-case HTTP header name, as an HTTP client library
/// hands them out.
pub open spec fn header_name(n: Seq<char>) -> bool {
    n.len() > 0 && forall|i: int| 0 <= i < n.len() ==> token_char(#[trigger] n[i])
}

/// Whether `s` is ASCII text.
pub open spec fn ascii_text(s: Seq<char>) -> bool {
    forall|i: int| 0 <= i < s.len() ==> (#[trigger] s[i] as u32) < 128
}

/// Whether a request can be signed as it stands: an ASCII method and
/// lower-case header names, which is what an HTTP request carries.
pub open spec fn signable(method: Seq<char>, headers: Seq<(Seq<char>, Seq<char>)>) -> bool {
    ascii_text(method) && forall|k: int| 0 <= k < headers.len() ==> header_name(#[trigger] headers[k].0)
}

/// `s` with its ASCII capitals made small.
pub open spec fn ascii_lower(s: Seq<char>) -> Seq<char> {
    s.map_values(|c: char| if 'A' <= c && c <= 'Z' { ((c as int) + 32) as char } else { c })
}

/// Whether `a` comes before `b` in the order of their characters.
pub open spec fn text_lt(a: Seq<char>, b: Seq<char>) -> bool {
    exists|k: int|
        0 <= k <= a.len() && k <= b.len() && a.subrange(0, k) == b.subrange(0, k) && ((k == a.len()
            && k < b.len()) || (k < a.len() && k < b.len() && (a[k] as u32) < (b[k] as u32)))
}

/// Whether `ns` lists the names of `headers`, each once, in order.
pub open spec fn names_listed(headers: Seq<(Seq<char>, Seq<char>)>, ns: Seq<Seq<char>>) -> bool {
    &&& forall|i: int, j: int| 0 <= i < j < ns.len() ==> text_lt(#[trigger] ns[i], #[trigger] ns[j])
    &&& forall|i: int| 0 <= i < ns.len() ==> exists|k: int| 0 <= k < headers.len() && headers[k].0 == #[trigger] ns[i]
    &&& forall|k: int| 0 <= k < headers.len() ==> ns.contains(#[trigger] headers[k].0)
}

/// The names of `headers`, each once, in order (the one list that
/// `names_listed` allows).
pub open spec fn header_names(headers: Seq<(Seq<char>, Seq<char>)>) -> Seq<Seq<char>> {
    choose|ns: Seq<Seq<char>>| names_listed(headers, ns)
}

/// The value of the last header named `name`.
pub open spec fn last_value(headers: Seq<(Seq<char>, Seq<char>)>, name: Seq<char>) -> Seq<char>
    decreases headers.len(),
{
    if headers.len() == 0 {
        seq![]
    } else if headers.last().0 == name {
        headers.last().1
    } else {
        last_value(headers.drop_last(), name)
    }
}

/// A line `\n{name}: {value}` for each name of `ns`, with the last value of
/// that header.
pub open spec fn header_lines(headers: Seq<(Seq<char>, Seq<char>)>, ns: Seq<Seq<char>>) -> Seq<char>
    decreases ns.len(),
{
    if ns.len() == 0 {
        seq![]
    } else {
        header_lines(headers, ns.drop_last()) + "\n"@ + ns.last() + ": "@ + last_value(headers, ns.last())
    }
}

/// The signing string of a request: `(request-target): {method} {target}`
/// with the method in small letters, then a line for each header, by name.
pub open spec fn signing_text(method: Seq<char>, target: Seq<char>, headers: Seq<(Seq<char>, Seq<char>)>) -> Seq<
    char,
> {
    "(request-target): "@ + ascii_lower(method) + " "@ + target + header_lines(headers, header_names(headers))
}

/// Whether the request has a `date` header, which a signature without the
/// `(created)` field must sign.
pub open spec fn has_date(headers: Seq<(Seq<char>, Seq<char>)>) -> bool {
    exists|k: int| 0 <= k < headers.len() && #[trigger] headers[k].0 == "date"@
}

/// ` {name}` for each name of `ns`.
pub open spec fn name_list(ns: Seq<Seq<char>>) -> Seq<char>
    decreases ns.len(),
{
    if ns.len() == 0 {
        seq![]
    } else {
        name_list(ns.drop_last()) + " "@ + ns.last()
    }
}

/// The `Signature` header for key `key_id`, the signed `headers` and the
/// base64 `signature`:
/// `keyId="{key_id}",algorithm="hs2019",headers="(request-target) {names}",signature="{signature}"`.
pub open spec fn header_text(key_id: Seq<char>, headers: Seq<(Seq<char>, Seq<char>)>, signature: Seq<char>) -> Seq<
    char,
> {
    "keyId=\""@ + key_id + "\",algorithm=\"hs2019\",headers=\"(request-target)"@ + name_list(
        header_names(headers),
    ) + "\",signature=\""@ + signature + "\""@
}

/// The key id, signature and signing string that
/// `http_signature_normalization::Config::begin_verify` (without the created
/// field) reads from a received request with `method`, request target
/// `target` and `headers`, before it checks the dates: `None` when the
/// `Signature` (or `Authorization`) header is missing or does not parse, or a
/// header it signs is missing.
pub uninterp spec fn hs_verify_parts(
    method: Seq<char>,
    target: Seq<char>,
    headers: Seq<(Seq<char>, Seq<char>)>,
) -> Option<(Seq<char>, Seq<char>, Seq<char>)>;

/// The `Signature` header for a request, when it has a `date` header and
/// the private key `key_der` signs its signing string.
pub open spec fn signed_header(
    key_id: Seq<char>,
    method: Seq<char>,
    target: Seq<char>,
    headers: Seq<(Seq<char>, Seq<char>)>,
    key_der: Seq<u8>,
) -> Option<Seq<char>> {
    if !has_date(headers) {
        None
    } else {
        match signature_field(key_der, encode_utf8(signing_text(method, target, headers))) {
            Some(sig) => Some(header_text(key_id, headers, sig)),
            None => None,
        }
    }
}

/// Builds the `Signature` header: `Config::begin_sign` (without the created
/// field) on the method, target and headers, `Unsigned::sign` with key
/// `key_id` and a signer that calls `sign_signing_string` with `key_der`,
/// then `Signed::signature_header`; an error of either step turned into
/// `None`.  Claimed: the result is `signed_header` of the arguments.  The
/// crate keys its headers by their names in small letters (`to_lowercase`),
/// the last value of a name winning, and lists them in order after
/// `(request-target)`; `requires` asks for names already in small letters,
/// as a request's are.  This form reads no clock.
#[verifier::external_body]
fn hs_sign(
    key_id: &str,
    method: &str,
    target: &str,
    headers: &[(String, String)],
    key_der: &[u8],
) -> (h: Option<String>)
    requires
        signable(method@, header_views(headers@)),
    ensures
        match signed_header(key_id@, method@, target@, header_views(headers@), key_der@) {
            Some(x) => h matches Some(y) && y@ == x,
            None => h is None,
        },
{
    let map: std::collections::BTreeMap<String, String> = headers.iter().cloned().collect();
    let config = http_signature_normalization::Config::new().dont_use_created_field();
    let unsigned = config.begin_sign(method, target, map).ok()?;
    let signed = unsigned.sign(key_id.to_owned(), |s| sign_signing_string(key_der, s).ok_or(())).ok()?;
    Some(signed.signature_header())
}

/// The `Signature` header the server puts on a request it sends: key
/// `key_id`, the request's method, path and query, and its headers, signed
/// with the server's private key `key_der` (PKCS#8 DER).  `None` when the
/// request has no `date` header or the key does not sign (see
/// `signed_header`).
pub fn signature_header(
    key_id: &str,
    method: &str,
    path: &str,
    query: Option<&str>,
    headers: Vec<(String, String)>,
    key_der: &[u8],
) -> (h: Option<String>)
    requires
        signable(method@, header_views(headers@)),
    ensures
        match signed_header(
            key_id@,
            method@,
            request_target(
                path@,
                match query {
                    Some(q) => Some(q@),
                    None => None,
                },
            ),
            header_views(headers@),
            key_der@,
        ) {
            Some(x) => h matches Some(y) && y@ == x,
            None => h is None,
        },
{
    let target = path_and_query(path, query);
    hs_sign(key_id, method, target.as_str(), headers.as_slice(), key_der)
}

/// Whether every character of `s` is ASCII (see `ascii_text`).
fn ascii_exec(s: &str) -> (ok: bool)
    ensures
        ok == ascii_text(s@),
{
    let c = chars_of(s);
    let mut i: usize = 0;
    while i < c.len()
        invariant
            c@ == s@,
            i <= c@.len(),
            forall|m: int| 0 <= m < i ==> (#[trigger] c@[m] as u32) < 128,
        decreases c@.len() - i,
    {
        if !((c[i] as u32) < 128) {
            return false;
        }
        i = i + 1;
    }
    true
}

/// Whether `c` is a token character (see `token_char`).
fn token_char_exec(c: char) -> (ok: bool)
    ensures
        ok == token_char(c),
{
    ('a' <= c && c <= 'z') || ('0' <= c && c <= '9') || c == '!' || c == '#' || c == '$' || c == '%'
        || c == '&' || c == '\'' || c == '*' || c == '+' || c == '-' || c == '.' || c == '^' || c == '_'
        || c == '`' || c == '|' || c == '~'
}

/// Whether `n` is a lower-case header name (see `header_name`).
fn header_name_exec(n: &str) -> (ok: bool)
    ensures
        ok == header_name(n@),
{
    let c = chars_of(n);
    if c.len() == 0 {
        return false;
    }
    let mut i: usize = 0;
    while i < c.len()
        invariant
            c@ == n@,
            i <= c@.len(),
            forall|m: int| 0 <= m < i ==> token_char(#[trigger] c@[m]),
        decreases c@.len() - i,
    {
        if !token_char_exec(c[i]) {
            return false;
        }
        i = i + 1;
    }
    true
}

/// Whether a request can be signed as it stands (see `signable`).
pub fn signable_request(method: &str, headers: &Vec<(String, String)>) -> (ok: bool)
    ensures
        ok == signable(method@, header_views(headers@)),
{
    if !ascii_exec(method) {
        return false;
    }
    let mut k: usize = 0;
    while k < headers.len()
        invariant
            k <= headers@.len(),
            forall|m: int| 0 <= m < k ==> header_name(#[trigger] header_views(headers@)[m].0),
        decreases headers@.len() - k,
    {
        if !header_name_exec(headers[k].0.as_str()) {
            assert(header_views(headers@)[k as int].0 == headers@[k as int].0@);
            return false;
        }
        assert(header_views(headers@)[k as int].0 == headers@[k as int].0@);
        k = k + 1;
    }
    true
}

/// How long a received signature stays valid after the request's `date`, in
/// seconds.
pub const INBOX_SIGNATURE_LIFETIME_SECS: u64 = 3600;

/// Whether `v` holds `w` at position `i`.
pub open spec fn text_at(v: Seq<char>, i: int, w: Seq<char>) -> bool {
    0 <= i && i + w.len() <= v.len() && v.subrange(i, i + w.len()) == w
}

/// Whether a `created=` or `expires=` field may start at position `i` of `v`.
pub open spec fn time_field_at(v: Seq<char>, i: int) -> bool {
    text_at(v, i, seq!['c', 'r', 'e', 'a', 't', 'e', 'd', '='])
        || text_at(v, i, seq!['e', 'x', 'p', 'i', 'r', 'e', 's', '='])
}

/// Whether `v` ends, or holds a `,`, within 18 characters after position `p`.
pub open spec fn ends_soon(v: Seq<char>, p: int) -> bool {
    v.len() <= p + 18 || exists|j: int| p <= j <= p + 18 && #[trigger] v[j] == ','
}

/// Whether every `created=` or `expires=` field in `v` is followed by at most
/// 18 characters before the next `,` or the end: a time of at most 18
/// characters is below 10^18 seconds, which the clock can add to.
pub open spec fn times_fit(v: Seq<char>) -> bool {
    forall|i: int| #[trigger] time_field_at(v, i) ==> ends_soon(v, i + 8)
}

/// Whether no header of a received request holds a `created` or `expires`
/// time that overflows the clock (see `times_fit`).
pub open spec fn signature_times_fit(headers: Seq<(Seq<char>, Seq<char>)>) -> bool {
    forall|k: int| 0 <= k < headers.len() ==> times_fit(#[trigger] headers[k].1)
}

/// Whether `v` holds `w` at position `i` (see `text_at`).
fn text_at_exec(v: &[char], i: usize, w: &[char]) -> (ok: bool)
    ensures
        ok == text_at(v@, i as int, w@),
{
    if i > v.len() || w.len() > v.len() - i {
        return false;
    }
    let n = v.len();
    let mut k: usize = 0;
    while k < w.len()
        invariant
            n == v@.len(),
            i + w@.len() <= n,
            k <= w@.len(),
            forall|m: int| 0 <= m < k ==> v@[i + m] == w@[m],
        decreases w@.len() - k,
    {
        if v[i + k] != w[k] {
            assert(v@.subrange(i as int, i + w@.len())[k as int] != w@[k as int]);
            return false;
        }
        k = k + 1;
    }
    assert(v@.subrange(i as int, i + w@.len()) =~= w@);
    true
}

/// Whether `v` ends, or holds a `,`, within 18 characters after `p` (see
/// `ends_soon`).
fn ends_soon_exec(v: &[char], p: usize) -> (ok: bool)
    requires
        p <= v@.len(),
    ensures
        ok == ends_soon(v@, p as int),
{
    if v.len() - p <= 18 {
        return true;
    }
    let last = p + 18;
    let mut j: usize = p;
    while j <= last
        invariant
            last == p + 18,
            p <= j <= p + 19,
            p + 18 < v@.len(),
            forall|m: int| p <= m < j ==> v@[m] != ',',
        decreases p + 19 - j,
    {
        if v[j] == ',' {
            return true;
        }
        j = j + 1;
    }
    false
}

/// Whether every time field of `v` fits (see `times_fit`).
fn times_fit_exec(v: &str) -> (ok: bool)
    ensures
        ok == times_fit(v@),
{
    let c = chars_of(v);
    let created: Vec<char> = vec!['c', 'r', 'e', 'a', 't', 'e', 'd', '='];
    let expires: Vec<char> = vec!['e', 'x', 'p', 'i', 'r', 'e', 's', '='];
    assert(created@ == seq!['c', 'r', 'e', 'a', 't', 'e', 'd', '=']);
    assert(expires@ == seq!['e', 'x', 'p', 'i', 'r', 'e', 's', '=']);
    let mut i: usize = 0;
    while i < c.len()
        invariant
            c@ == v@,
            i <= c@.len(),
            created@ == seq!['c', 'r', 'e', 'a', 't', 'e', 'd', '='],
            expires@ == seq!['e', 'x', 'p', 'i', 'r', 'e', 's', '='],
            forall|m: int| 0 <= m < i && #[trigger] time_field_at(c@, m) ==> ends_soon(c@, m + 8),
        decreases c@.len() - i,
    {
        let at_field = text_at_exec(c.as_slice(), i, created.as_slice()) || text_at_exec(
            c.as_slice(),
            i,
            expires.as_slice(),
        );
        if at_field && !ends_soon_exec(c.as_slice(), i + 8) {
            assert(time_field_at(c@, i as int));
            return false;
        }
        i = i + 1;
    }
    assert forall|m: int| #[trigger] time_field_at(c@, m) implies ends_soon(c@, m + 8) by {
        assert(0 <= m < c@.len());
    }
    true
}

/// Whether no header of a received request holds a time that overflows the
/// clock (see `signature_times_fit`).
fn signature_times_fit_exec(headers: &Vec<(String, String)>) -> (ok: bool)
    ensures
        ok == signature_times_fit(header_views(headers@)),
{
    let mut k: usize = 0;
    while k < headers.len()
        invariant
            k <= headers@.len(),
            forall|m: int| 0 <= m < k ==> times_fit(#[trigger] header_views(headers@)[m].1),
        decreases headers@.len() - k,
    {
        assert(header_views(headers@)[k as int].1 == headers@[k as int].1@);
        if !times_fit_exec(headers[k].1.as_str()) {
            return false;
        }
        k = k + 1;
    }
    true
}

/// Reads a received request's `Signature` header with `Config::begin_verify`
/// (without the created field, signatures valid `expires_after_secs` seconds
/// after the request's `date`), its error turned into `None`, and gives
/// `Unverified::key_id`, `signature` and `signing_string`.  The lifetime is
/// the inbox's.  A `created` or `expires` time that overflows the clock
/// (`UNIX_EPOCH + Duration::from_secs`) panics in the crate, which `requires`
/// leaves out.  Claimed: what comes back is `hs_verify_parts` of the request,
/// and nothing comes back where those parts are `None`.  Whether a request
/// whose parts read is refused as expired depends on the clock and is not
/// stated.
#[verifier::external_body]
fn hs_begin_verify(
    method: &str,
    target: &str,
    headers: &[(String, String)],
    expires_after_secs: u64,
) -> (r: Option<(String, String, String)>)
    requires
        expires_after_secs == INBOX_SIGNATURE_LIFETIME_SECS,
        signature_times_fit(header_views(headers@)),
    ensures
        r matches Some(p) ==> hs_verify_parts(method@, target@, header_views(headers@)) == Some(
            (p.0@, p.1@, p.2@),
        ),
        hs_verify_parts(method@, target@, header_views(headers@)) is None ==> r is None,
{
    let map: std::collections::BTreeMap<String, String> = headers.iter().cloned().collect();
    let config = http_signature_normalization::Config::new()
        .set_expiration(std::time::Duration::from_secs(expires_after_secs))
        .dont_use_created_field();
    let unverified = config.begin_verify(method, target, map).ok()?;
    Some((
        unverified.key_id().to_owned(),
        unverified.signature().to_owned(),
        unverified.signing_string().to_owned(),
    ))
}

/// What the inbox checks of a received request before it fetches the
/// sender's key: the key id, the signature and the signing string of its
/// `Signature` header (see `hs_verify_parts`), read with a lifetime of
/// `INBOX_SIGNATURE_LIFETIME_SECS`.  Nothing comes back when a header holds a
/// `created` or `expires` time too long to be one (see `signature_times_fit`),
/// or the `Signature` header is missing, does not parse, or lacks a signed
/// header; whether a request is refused as older than the lifetime depends
/// on the clock.
pub fn prepare_inbox_verification(
    method: &str,
    path_and_query: &str,
    headers: Vec<(String, String)>,
) -> (r: Option<(String, String, String)>)
    ensures
        !signature_times_fit(header_views(headers@)) ==> r is None,
        r matches Some(p) ==> hs_verify_parts(method@, path_and_query@, header_views(headers@))
            == Some((p.0@, p.1@, p.2@)),
        hs_verify_parts(method@, path_and_query@, header_views(headers@)) is None ==> r is None,
{
    if !signature_times_fit_exec(&headers) {
        return None;
    }
    hs_begin_verify(method, path_and_query, headers.as_slice(), INBOX_SIGNATURE_LIFETIME_SECS)
}

} // verus!
