//! Login sessions: their records, their secrets and the cookie that carries them.
use vstd::prelude::*;
use crate::text::push_str;

verus! {

/// A stored login session.
pub struct Session {
    pub id: i32,
    pub cookie: String,
    pub user_id: i32,
    pub created_time: String,
}

/// Whether `c` is an ASCII letter or digit.
pub open spec fn is_ascii_alphanumeric(c: char) -> bool {
    ('0' <= c && c <= '9') || ('A' <= c && c <= 'Z') || ('a' <= c && c <= 'z')
}

/// One character drawn with `rand::thread_rng()` from
/// `rand::distributions::Alphanumeric`.  Claimed: it is an ASCII letter or
/// digit; which one is random.
#[verifier::external_body]
fn random_alphanumeric() -> (c: char)
    ensures
        is_ascii_alphanumeric(c),
{
    char::from(rand::Rng::sample(&mut rand::thread_rng(), rand::distributions::Alphanumeric))
}

/// The number of characters in a session secret.
pub const SECRET_LEN: usize = 48;

/// A fresh random session secret: 48 ASCII letters and digits.
pub fn new_session_secret() -> (secret: String)
    ensures
        secret@.len() == SECRET_LEN,
        forall|i: int| 0 <= i < secret@.len() ==> is_ascii_alphanumeric(#[trigger] secret@[i]),
{
    let mut secret = String::new();
    let mut i: usize = 0;
    while i < SECRET_LEN
        invariant
            i <= SECRET_LEN,
            secret@.len() == i,
            forall|j: int| 0 <= j < secret@.len() ==> is_ascii_alphanumeric(#[trigger] secret@[j]),
        decreases SECRET_LEN - i,
    {
        let c = random_alphanumeric();
        secret.push(c);
        i = i + 1;
    }
    secret
}

/// The `Set-Cookie` value that keeps a session for a year.
pub open spec fn session_cookie(secret: Seq<char>) -> Seq<char> {
    "EXAUTH="@ + secret + "; MAX-AGE=31536000; SameSite=Strict; HttpOpnly"@
}

/// The `Set-Cookie` value for a session with secret `secret`.
pub fn session_cookie_header(secret: &str) -> (header: String)
    ensures
        header@ == session_cookie(secret@),
{
    let mut header = String::new();
    push_str(&mut header, "EXAUTH=");
    push_str(&mut header, secret);
    push_str(&mut header, "; MAX-AGE=31536000; SameSite=Strict; HttpOpnly");
    header
}

} // verus!
