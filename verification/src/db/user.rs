//! Users: their records and how a login is checked.
use vstd::prelude::*;
use crate::text::{chars_of, push_str};

verus! {

/// A registered user (local, or remote with `remote_url` set).
#[derive(Clone, Debug)]
pub struct User {
    pub id: i32,
    pub username: String,
    pub email: Option<String>,
    pub bio: String,
    pub created_time: String,
    /// The bcrypt hash of the password; remote users have none.
    pub password: Option<String>,
    pub admin: bool,
    pub remote_url: Option<String>,
}

/// A user of another server, ready to be stored.
pub struct NewRemoteUser {
    pub username: String,
    pub remote_url: Option<String>,
}

/// The address of the page of user `username` on the server at `domain`.
pub open spec fn user_url(domain: Seq<char>, username: Seq<char>) -> Seq<char> {
    domain + "/user/"@ + username
}

impl User {
    /// The address of this user's page: `{domain}/user/{username}`.
    pub fn get_url(&self, domain: &str) -> (url: String)
        ensures
            url@ == user_url(domain@, self.username@),
    {
        let mut url = String::new();
        push_str(&mut url, domain);
        push_str(&mut url, "/user/");
        push_str(&mut url, self.username.as_str());
        url
    }
}

/// What `bcrypt::verify` answers for `password` against the stored `hash`:
/// `Some(true)` or `Some(false)`, or `None` where it reports an error (a hash
/// it cannot read).
pub uninterp spec fn bcrypt_verdict(password: Seq<char>, hash: Seq<char>) -> Option<bool>;

/// Checks `password` against a bcrypt `hash` with `bcrypt::verify`, its error
/// turned into `None`.  Claimed: the answer is `bcrypt_verdict` of the two,
/// a function of them alone; how bcrypt decides is not stated.
#[verifier::external_body]
fn bcrypt_verify(password: &str, hash: &str) -> (verdict: Option<bool>)
    ensures
        verdict == bcrypt_verdict(password@, hash@),
{
    bcrypt::verify(password, hash).ok()
}

/// The user a login with `password` lets in, given the user stored under the
/// name that was entered (if any): that user when it has a password hash and
/// bcrypt accepts the password against it, else none.
pub open spec fn login_result(found: Option<User>, password: Seq<char>) -> Option<User> {
    match found {
        Some(u) => match u.password {
            Some(h) => if bcrypt_verdict(password, h@) == Some(true) {
                Some(u)
            } else {
                None
            },
            None => None,
        },
        None => None,
    }
}

impl User {
    /// Checks a login: `found` is the user stored under the name entered, if
    /// any (see `login_result`).
    pub fn authenticate(found: Option<User>, password: &str) -> (user: Option<User>)
        ensures
            user == login_result(found, password@),
    {
        match found {
            Some(u) => {
                let verdict = match &u.password {
                    Some(h) => bcrypt_verify(password, h.as_str()),
                    None => {
                        return None;
                    },
                };
                match verdict {
                    Some(true) => Some(u),
                    _ => None,
                }
            },
            None => None,
        }
    }
}

/// A local user ready to be stored: `password` is the bcrypt hash of the
/// password, never the password itself.
pub struct NewUser {
    pub username: String,
    pub password: String,
    pub email: String,
}

/// Hashes `password` with `bcrypt::hash` at `bcrypt::DEFAULT_COST`, with a
/// salt from the operating system's random source; its error (no random
/// source) turned into `None`.  Claimed: a hash that comes back is one that
/// bcrypt accepts the password against (`verify` recomputes it from the salt
/// and cost written in it).  Which hash comes back depends on the salt and
/// is not stated.
#[verifier::external_body]
fn hash_password(password: &str) -> (hash: Option<String>)
    ensures
        hash matches Some(h) ==> bcrypt_verdict(password@, h@) == Some(true),
{
    bcrypt::hash(password, bcrypt::DEFAULT_COST).ok()
}

/// The user stored for a registration with `username`, `password` and
/// `email`: the password is stored as its bcrypt hash.  `None` when hashing
/// failed.
pub fn new_user(username: &str, password: &str, email: &str) -> (u: Option<NewUser>)
    ensures
        u matches Some(n) ==> {
            &&& n.username@ == username@
            &&& n.email@ == email@
            &&& bcrypt_verdict(password@, n.password@) == Some(true)
        },
{
    match hash_password(password) {
        Some(h) => {
            let mut name = String::new();
            push_str(&mut name, username);
            let mut mail = String::new();
            push_str(&mut mail, email);
            Some(NewUser { username: name, password: h, email: mail })
        },
        None => None,
    }
}

/// What someone fills in to register.
pub struct RegisterForm {
    pub username: String,
    pub password: String,
    pub email: String,
}

/// The `score` of `zxcvbn::zxcvbn(password, &[])`, from 0 (weakest) to 4.
/// Claimed: it is at most 4 (the crate's `calculate_score` gives 0 to 4).
/// The score depends on the password and on the current year, which the
/// crate reads from the clock to rate dates and years in the password, so
/// which score comes back is not stated.  The crate refuses a blank
/// password, which `requires` leaves out; it also fails, and this panics,
/// when the system clock reads before 1970 or goes back during the estimate.
#[verifier::external_body]
pub(crate) fn password_score(password: &str) -> (score: u8)
    requires
        password@.len() > 0,
    ensures
        score <= 4,
{
    zxcvbn::zxcvbn(password, &[]).unwrap().score()
}

/// The message for a password that is too weak.
pub open spec fn weak_password_message() -> Seq<char> {
    "Please come up with a more secure password."@
}

/// Whether a password with zxcvbn score `score` is strong enough: it does
/// not score 0, the weakest.
pub open spec fn strong_enough(score: u8) -> bool {
    score >= 1
}

/// The verdict on a password that zxcvbn scored `score` (see `strong_enough`).
pub fn password_verdict(score: u8) -> (r: Result<(), &'static str>)
    ensures
        r is Ok <==> strong_enough(score),
        r matches Err(m) ==> m@ == weak_password_message(),
{
    if score < 1 {
        return Err("Please come up with a more secure password.");
    }
    Ok(())
}

impl RegisterForm {
    /// Scores the form's password with zxcvbn and gives the verdict on that
    /// score (see `password_verdict`).  Which score zxcvbn gives depends on
    /// the current year, so whether the form passes is not stated; a refusal
    /// carries the weak-password message.
    pub fn validate(&self) -> (r: Result<(), &'static str>)
        requires
            self.password@.len() > 0,
        ensures
            r matches Err(m) ==> m@ == weak_password_message(),
    {
        password_verdict(password_score(self.password.as_str()))
    }
}

/// Whether two texts are the same.
pub fn same_text(a: &str, b: &str) -> (same: bool)
    ensures
        same == (a@ == b@),
{
    let x = chars_of(a);
    let y = chars_of(b);
    if x.len() != y.len() {
        return false;
    }
    let mut i: usize = 0;
    while i < x.len()
        invariant
            x@ == a@,
            y@ == b@,
            x@.len() == y@.len(),
            0 <= i <= x@.len(),
            forall|j: int| 0 <= j < i ==> x@[j] == y@[j],
        decreases x@.len() - i,
    {
        if x[i] != y[i] {
            return false;
        }
        i = i + 1;
    }
    assert(x@ == y@);
    true
}

impl User {
    /// Whether this user may edit the page of user `user_name`: it is their
    /// own page, or they are an admin.
    pub fn can_edit(&self, user_name: &str) -> (allowed: bool)
        ensures
            allowed == (self.username@ == user_name@ || self.admin),
    {
        same_text(self.username.as_str(), user_name) || self.admin
    }
}

/// Whether `u` is the user of pages nobody is logged in to: every text empty,
/// no id, no email, no password, not an admin, not remote.
pub open spec fn is_default_user(u: User) -> bool {
    &&& u.id == 0
    &&& u.username@ == Seq::<char>::empty()
    &&& u.email is None
    &&& u.bio@ == Seq::<char>::empty()
    &&& u.created_time@ == Seq::<char>::empty()
    &&& u.password is None
    &&& !u.admin
    &&& u.remote_url is None
}

impl Default for User {
    /// The user of pages nobody is logged in to (see `is_default_user`).
    fn default() -> (u: User)
        ensures
            is_default_user(u),
    {
        User {
            id: 0,
            username: String::new(),
            email: None,
            bio: String::new(),
            created_time: String::new(),
            password: None,
            admin: false,
            remote_url: None,
        }
    }
}

} // verus!
