//! The server's ActivityPub side: its actor and addresses, the activities it
//! sends, and what it takes from the notes and messages it receives.
//!
//! Users do not follow users here: the server follows other servers, and every
//! note shared with the neighborhood goes out as the server's own.  Who wrote a
//! note travels as a prefix of its content, `{domain}:{username}💬 `, which a
//! receiving server of this kind reads back (`ApNote::get_remote_user_name`).
use vstd::prelude::*;
use crate::db::note::{
    get_url, note_tags, note_url, outgoing_content, remove_unacceptable_html, sanitized_html, Note,
    RemoteNoteInput,
};
use crate::db::server_mutuals::NewServerMutual;
use crate::db::user::{same_text, NewRemoteUser, User};
use crate::text::{chars_of, push_slice, push_str};

verus! {

/// The base address of the server: `https://{domain}` when SSL is enabled
/// (`ssl_enabled` is `"1"`), else `http://{domain}`.
pub open spec fn base_url(ssl_enabled: Seq<char>, domain: Seq<char>) -> Seq<char> {
    if ssl_enabled == seq!['1'] {
        "https://"@ + domain
    } else {
        "http://"@ + domain
    }
}

/// The base address of the server (see `base_url`).
pub fn domain_url(ssl_enabled: &str, domain: &str) -> (url: String)
    ensures
        url@ == base_url(ssl_enabled@, domain@),
{
    let s = chars_of(ssl_enabled);
    let mut url = String::new();
    if s.len() == 1 && s[0] == '1' {
        assert(s@ == seq!['1']);
        push_str(&mut url, "https://");
    } else {
        assert(s@ != seq!['1']);
        push_str(&mut url, "http://");
    }
    push_str(&mut url, domain);
    url
}

/// What the server says of itself over ActivityPub.
pub struct ServerApData {
    pub global_id: String,
    pub key_id: String,
    pub domain: String,
    pub inbox: String,
    pub public_key: String,
}

/// The server's ActivityPub data, from whether SSL is enabled, its domain and
/// the PEM text of its public key: the actor id is the base address, the key
/// id is the base address with `#key`, the inbox is under `/inbox`.
pub fn server_ap_data(ssl_enabled: &str, domain: &str, public_key: String) -> (server: ServerApData)
    ensures
        server.global_id@ == base_url(ssl_enabled@, domain@),
        server.key_id@ == base_url(ssl_enabled@, domain@) + "#key"@,
        server.inbox@ == base_url(ssl_enabled@, domain@) + "/inbox"@,
        server.domain@ == domain@,
        server.public_key == public_key,
{
    let global_id = domain_url(ssl_enabled, domain);
    let mut key_id = domain_url(ssl_enabled, domain);
    push_str(&mut key_id, "#key");
    let mut inbox = domain_url(ssl_enabled, domain);
    push_str(&mut inbox, "/inbox");
    let mut own_domain = String::new();
    push_str(&mut own_domain, domain);
    ServerApData { global_id, key_id, domain: own_domain, inbox, public_key }
}

/// Whether `c` is a lowercase hexadecimal digit.
pub open spec fn is_lower_hex(c: char) -> bool {
    ('0' <= c && c <= '9') || ('a' <= c && c <= 'f')
}

/// Whether `u` is the text of a random (version 4) UUID in lowercase hyphenated
/// form: `xxxxxxxx-xxxx-4xxx-Vxxx-xxxxxxxxxxxx`, `V` one of `8`, `9`, `a`, `b`.
pub open spec fn is_uuid_v4_text(u: Seq<char>) -> bool {
    &&& u.len() == 36
    &&& forall|i: int|
        0 <= i < 36 ==> if i == 8 || i == 13 || i == 18 || i == 23 {
            #[trigger] u[i] == '-'
        } else {
            is_lower_hex(u[i])
        }
    &&& u[14] == '4'
    &&& (u[19] == '8' || u[19] == '9' || u[19] == 'a' || u[19] == 'b')
}

/// A fresh random UUID, `uuid::Uuid::new_v4`, written with `Display`.
/// Claimed: the text has the lowercase hyphenated version-4 form; which UUID
/// comes out is random and not stated.  The crate panics if the operating
/// system cannot supply random bytes.
#[verifier::external_body]
fn new_uuid_v4_text() -> (u: String)
    ensures
        is_uuid_v4_text(u@),
{
    uuid::Uuid::new_v4().to_string()
}

/// Whether `id` is `{base}/activity/{uuid}` for some random UUID text.
pub open spec fn is_activity_id(base: Seq<char>, id: Seq<char>) -> bool {
    exists|u: Seq<char>| is_uuid_v4_text(u) && id == base + "/activity/"@ + u
}

/// A fresh id for an activity of the server whose base address is `domain_url`.
pub fn generate_activity_id(domain_url: &str) -> (id: String)
    ensures
        is_activity_id(domain_url@, id@),
{
    let u = new_uuid_v4_text();
    let mut id = String::new();
    push_str(&mut id, domain_url);
    push_str(&mut id, "/activity/");
    push_str(&mut id, u.as_str());
    assert(id@ == domain_url@ + "/activity/"@ + u@);
    id
}

/// A note object as ActivityPub carries it.
#[derive(Debug)]
pub struct ApNote {
    pub content: String,
    pub attributed_to: String,
    pub url: String,
    pub summary: Option<String>,
    pub id: String,
    pub in_reply_to: Option<String>,
}

/// The key an actor signs with.
#[derive(Debug)]
pub struct PublicKey {
    pub id: String,
    pub owner: String,
    pub public_key_pem: String,
}

/// An ActivityPub actor.  `context` holds the JSON text of its `@context`.
#[derive(Debug)]
pub struct Actor {
    pub context: String,
    pub id: String,
    pub name: Option<String>,
    pub summary: Option<String>,
    pub _type: String,
    pub preferred_username: String,
    pub inbox: String,
    pub public_key: PublicKey,
}

/// A note created by an actor.
pub struct CreateNote {
    pub id: String,
    pub note: ApNote,
    pub actor: Actor,
}

/// Where the author prefix `(.+?)💬` of `t` ends, trying ends from `k` on:
/// the first `💬` at or after `k`, provided no line break comes before it.
pub open spec fn author_end_from(t: Seq<char>, k: int) -> Option<int>
    decreases t.len() - k,
{
    if k < 1 || k >= t.len() {
        None
    } else if t[k] == '💬' {
        Some(k)
    } else if t[k] == '\n' {
        None
    } else {
        author_end_from(t, k + 1)
    }
}

/// The author that the content `t` of a note names, as the regular expression
/// `^(.+?)(💬)` captures it: the text before the first `💬` that is not the
/// first character, when that text holds no line break.
pub open spec fn remote_author(t: Seq<char>) -> Option<Seq<char>> {
    if t.len() > 0 && t[0] != '\n' {
        match author_end_from(t, 1) {
            Some(k) => Some(t.subrange(0, k)),
            None => None,
        }
    } else {
        None
    }
}

impl ApNote {
    /// The author named at the start of the note's content (see `remote_author`).
    pub fn get_remote_user_name(&self) -> (name: Option<String>)
        ensures
            match name {
                Some(n) => remote_author(self.content@) == Some(n@),
                None => remote_author(self.content@) is None,
            },
    {
        let t = chars_of(self.content.as_str());
        if t.len() == 0 || t[0] == '\n' {
            return None;
        }
        let mut k: usize = 1;
        while k < t.len()
            invariant
                1 <= k <= t@.len(),
                t@ == self.content@,
                t@[0] != '\n',
                author_end_from(t@, 1) == author_end_from(t@, k as int),
            decreases t@.len() - k,
        {
            if t[k] == '💬' {
                let mut name = String::new();
                push_slice(&mut name, t.as_slice(), 0, k);
                assert(author_end_from(t@, k as int) == Some(k as int));
                assert(name@ == t@.subrange(0, k as int));
                return Some(name);
            }
            if t[k] == '\n' {
                return None;
            }
            k = k + 1;
        }
        None
    }
}

/// The name under which the author of a received note is stored: the author
/// its content names, else the actor it is attributed to.
pub open spec fn remote_username(note: ApNote) -> Seq<char> {
    match remote_author(note.content@) {
        Some(a) => a,
        None => note.attributed_to@,
    }
}

/// The remote user to store for a received note.
pub fn remote_user_for(note: &ApNote) -> (user: NewRemoteUser)
    ensures
        user.username@ == remote_username(*note),
        user.remote_url is None,
{
    let username = match note.get_remote_user_name() {
        Some(n) => n,
        None => note.attributed_to.clone(),
    };
    NewRemoteUser { username, remote_url: None }
}

/// The note to store for a received note written by the stored user `user_id`:
/// it belongs to the neighborhood, is remote, replies to nothing, keeps the
/// remote id, and keeps the content as HTML sanitising leaves it (see
/// `remove_unacceptable_html`), as for every note written to the database.
pub fn remote_note_input(note: ApNote, user_id: i32) -> (input: RemoteNoteInput)
    ensures
        input.user_id == user_id,
        input.content@ == sanitized_html(note.content@, note_tags()),
        input.in_reply_to is None,
        input.neighborhood,
        input.is_remote,
        input.remote_id == note.id,
{
    RemoteNoteInput {
        user_id,
        content: remove_unacceptable_html(note.content.as_str()),
        in_reply_to: None,
        neighborhood: true,
        is_remote: true,
        remote_id: note.id,
    }
}

/// The author prefix `{domain}:{username}`.
pub open spec fn author_tag(domain: Seq<char>, username: Seq<char>) -> Seq<char> {
    domain + seq![':'] + username
}

/// Whether `a` holds neither `💬` nor a line break.
pub open spec fn plain_author_tag(a: Seq<char>) -> bool {
    forall|i: int| 0 <= i < a.len() ==> #[trigger] a[i] != '💬' && a[i] != '\n'
}

/// From any end tried inside the author tag, the prefix ends right after the tag.
proof fn lemma_author_end_within(a: Seq<char>, t: Seq<char>, k: int)
    requires
        plain_author_tag(a),
        1 <= k <= a.len(),
        a.len() < t.len(),
        t.subrange(0, a.len() as int) == a,
        t[a.len() as int] == '💬',
    ensures
        author_end_from(t, k) == Some(a.len() as int),
    decreases a.len() - k,
{
    if k < a.len() {
        assert(t[k] == a[k]);
        lemma_author_end_within(a, t, k + 1);
    }
}

/// A note's author survives federation: the content this server sends for a
/// note by `username` (`Note::get_content_for_outgoing`) names, to a receiving
/// server of this kind (`ApNote::get_remote_user_name`), exactly the author
/// `{domain}:{username}`, whatever the note says, provided the domain and user
/// name hold neither `💬` nor a line break.
pub proof fn lemma_outgoing_author_roundtrip(domain: Seq<char>, username: Seq<char>, content: Seq<char>)
    requires
        plain_author_tag(author_tag(domain, username)),
    ensures
        remote_author(outgoing_content(domain, username, content)) == Some(author_tag(domain, username)),
{
    let a = author_tag(domain, username);
    let t = outgoing_content(domain, username, content);
    assert(t == a + seq!['💬', ' '] + content);
    assert(t.subrange(0, a.len() as int) == a);
    assert(t[a.len() as int] == '💬');
    assert(a[0] != '\n');
    assert(t[0] == a[0]);
    if a.len() >= 1 {
        lemma_author_end_within(a, t, 1);
    }
    assert(t.subrange(0, a.len() as int) == a);
}

/// Copies a text into a `String`.
fn owned(s: &str) -> (o: String)
    ensures
        o@ == s@,
{
    let mut o = String::new();
    push_str(&mut o, s);
    o
}

/// A webfinger lookup (`?resource=...`).
pub struct WebFingerQuery {
    pub resource: String,
}

/// A link in a webfinger answer.
pub struct WebFingerLink {
    pub href: String,
    pub rel: String,
    pub _type: String,
}

/// A webfinger answer.
pub struct WebFinger {
    pub aliases: Vec<String>,
    pub links: Vec<WebFingerLink>,
    pub subject: String,
}

/// The webfinger answer, which names the server's actor whatever was asked:
/// the actor id as the one alias and as the one `self` link (of type
/// `application/activity+json`), and `acct:server@{domain}` as the subject.
pub fn webfinger_json(query: WebFingerQuery, server: &ServerApData) -> (w: WebFinger)
    ensures
        w.aliases@.len() == 1,
        w.aliases@[0]@ == server.global_id@,
        w.links@.len() == 1,
        w.links@[0].href@ == server.global_id@,
        w.links@[0].rel@ == "self"@,
        w.links@[0]._type@ == "application/activity+json"@,
        w.subject@ == "acct:server@"@ + server.domain@,
{
    let mut aliases: Vec<String> = Vec::new();
    aliases.push(server.global_id.clone());
    let mut links: Vec<WebFingerLink> = Vec::new();
    links.push(
        WebFingerLink {
            href: server.global_id.clone(),
            rel: owned("self"),
            _type: owned("application/activity+json"),
        },
    );
    let mut subject = owned("acct:server@");
    push_str(&mut subject, server.domain.as_str());
    WebFinger { aliases, links, subject }
}

/// The JSON text of the server actor's `@context`.
pub open spec fn server_actor_context() -> Seq<char> {
    "[\"https://www.w3.org/ns/activitystreams\",\"https://w3id.org/security/v1\"]"@
}

/// The server's own actor: an `Organization` named and summarised `server`,
/// whose id and preferred user name are the actor id, with the server's inbox
/// and its public key (the key id, owned by the actor).
pub fn server_actor_json(server: &ServerApData) -> (a: Actor)
    ensures
        a.context@ == server_actor_context(),
        a.id@ == server.global_id@,
        a._type@ == "Organization"@,
        a.preferred_username@ == server.global_id@,
        a.inbox@ == server.inbox@,
        a.name matches Some(n) && n@ == "server"@,
        a.summary matches Some(s) && s@ == "server"@,
        a.public_key.id@ == server.key_id@,
        a.public_key.owner@ == server.global_id@,
        a.public_key.public_key_pem@ == server.public_key@,
{
    Actor {
        context: owned("[\"https://www.w3.org/ns/activitystreams\",\"https://w3id.org/security/v1\"]"),
        id: server.global_id.clone(),
        name: Some(owned("server")),
        summary: Some(owned("server")),
        _type: owned("Organization"),
        preferred_username: server.global_id.clone(),
        inbox: server.inbox.clone(),
        public_key: PublicKey {
            id: server.key_id.clone(),
            owner: server.global_id.clone(),
            public_key_pem: server.public_key.clone(),
        },
    }
}

/// The ActivityStreams context that outgoing activities declare.
pub open spec fn activity_streams_context() -> Seq<char> {
    "https://www.w3.org/ns/activitystreams"@
}

/// The audience of every outgoing note.
pub open spec fn public_audience() -> Seq<char> {
    "https://www.w3.org/ns/activitystreams#Public"@
}

/// The note inside a `Create` activity.
pub struct NoteObject {
    pub id: String,
    pub _type: String,
    pub summary: String,
    pub url: String,
    pub attributed_to: String,
    pub content: String,
}

/// A `Create` activity for a note.  It was published at the note's creation
/// time: `published` seconds since 1970-01-01 00:00:00 UTC and
/// `published_nanos` nanoseconds more.
pub struct CreateActivity {
    pub context: String,
    pub id: String,
    pub _type: String,
    pub actor: String,
    pub published: i64,
    pub published_nanos: u32,
    pub to: Vec<String>,
    pub object: NoteObject,
}

/// The `Create` activity that shares a note of `user` with other servers: sent
/// by the server's actor to the public, with a fresh activity id; the note is
/// attributed to the server, addressed by its URL on this server, and its
/// content carries the author (see `outgoing_content`).
pub fn new_note_to_ap_message(note: &Note, user: &User, server: &ServerApData) -> (m: CreateActivity)
    ensures
        m.context@ == activity_streams_context(),
        is_activity_id(server.global_id@, m.id@),
        m._type@ == "Create"@,
        m.actor@ == server.global_id@,
        m.published == note.created_time,
        m.published_nanos == note.created_nanos,
        m.to@.len() == 1,
        m.to@[0]@ == public_audience(),
        m.object.id@ == note_url(server.global_id@, note.id as int),
        m.object._type@ == "Note"@,
        m.object.summary@ == Seq::<char>::empty(),
        m.object.url@ == note_url(server.global_id@, note.id as int),
        m.object.attributed_to@ == server.global_id@,
        m.object.content@ == outgoing_content(server.domain@, user.username@, note.content@),
{
    let content = note.get_content_for_outgoing(server.domain.as_str(), user.username.as_str());
    let mut to: Vec<String> = Vec::new();
    to.push(owned("https://www.w3.org/ns/activitystreams#Public"));
    CreateActivity {
        context: owned("https://www.w3.org/ns/activitystreams"),
        id: generate_activity_id(server.global_id.as_str()),
        _type: owned("Create"),
        actor: server.global_id.clone(),
        published: note.created_time,
        published_nanos: note.created_nanos,
        to,
        object: NoteObject {
            id: get_url(server.global_id.as_str(), note.id),
            _type: owned("Note"),
            summary: String::new(),
            url: get_url(server.global_id.as_str(), note.id),
            attributed_to: server.global_id.clone(),
            content,
        },
    }
}

/// A `Follow` activity.
pub struct FollowActivity {
    pub context: String,
    pub id: String,
    pub _type: String,
    pub actor: String,
    pub object: String,
}

/// The id that every `Follow` this server sends carries.
pub open spec fn follow_activity_id() -> Seq<char> {
    "https://my-example.com/my-first-follow"@
}

/// What following the remote actor `remote_actor`, whose inbox is
/// `inbox_url`, takes: the `Follow` activity the server's actor sends it, and
/// the record of the remote actor to store (not yet accepted either way).
pub fn generate_server_follow(server: &ServerApData, remote_actor: &str, inbox_url: &str) -> (r: (
    FollowActivity,
    NewServerMutual,
))
    ensures
        r.0.context@ == activity_streams_context(),
        r.0.id@ == follow_activity_id(),
        r.0._type@ == "Follow"@,
        r.0.actor@ == server.global_id@,
        r.0.object@ == remote_actor@,
        r.1.actor_id@ == remote_actor@,
        r.1.inbox_url@ == inbox_url@,
{
    let follow = FollowActivity {
        context: owned("https://www.w3.org/ns/activitystreams"),
        id: owned("https://my-example.com/my-first-follow"),
        _type: owned("Follow"),
        actor: server.global_id.clone(),
        object: owned(remote_actor),
    };
    let mutual = NewServerMutual { actor_id: owned(remote_actor), inbox_url: owned(inbox_url) };
    (follow, mutual)
}

/// An `Accept` activity.  `object` holds the JSON text of the accepted activity.
pub struct AcceptActivity {
    pub context: String,
    pub id: String,
    pub _type: String,
    pub actor: String,
    pub object: String,
}

/// The `Accept` the server's actor sends back for a received `Follow`, whose
/// JSON text is `follow`; it carries a fresh activity id.
pub fn follow_accept_message(server: &ServerApData, follow: String) -> (m: AcceptActivity)
    ensures
        m.context@ == activity_streams_context(),
        is_activity_id(server.global_id@, m.id@),
        m._type@ == "Accept"@,
        m.actor@ == server.global_id@,
        m.object == follow,
{
    AcceptActivity {
        context: owned("https://www.w3.org/ns/activitystreams"),
        id: generate_activity_id(server.global_id.as_str()),
        _type: owned("Accept"),
        actor: server.global_id.clone(),
        object: follow,
    }
}

/// What the inbox does with an activity, by its `type`.
#[derive(Clone, Copy, PartialEq, Eq, Debug)]
pub enum InboxActivity {
    /// `Create`: store the note.
    Create,
    /// `Follow`: accept the follow.
    Follow,
    /// `Accept`: mark our follow accepted.
    Accept,
    /// Anything else: nothing.
    Ignore,
}

/// How the inbox handles an activity of type `msg_type`.
pub open spec fn inbox_action(msg_type: Seq<char>) -> InboxActivity {
    if msg_type == "Create"@ {
        InboxActivity::Create
    } else if msg_type == "Follow"@ {
        InboxActivity::Follow
    } else if msg_type == "Accept"@ {
        InboxActivity::Accept
    } else {
        InboxActivity::Ignore
    }
}

/// How the inbox handles an activity of type `msg_type` (see `inbox_action`).
pub fn classify_inbox_activity(msg_type: &str) -> (action: InboxActivity)
    ensures
        action == inbox_action(msg_type@),
{
    if same_text(msg_type, "Create") {
        InboxActivity::Create
    } else if same_text(msg_type, "Follow") {
        InboxActivity::Follow
    } else if same_text(msg_type, "Accept") {
        InboxActivity::Accept
    } else {
        InboxActivity::Ignore
    }
}

/// The request target that an outgoing request is signed with: the path, and
/// `?` and the query when there is one.
pub open spec fn request_target(path: Seq<char>, query: Option<Seq<char>>) -> Seq<char> {
    match query {
        Some(q) => path + seq!['?'] + q,
        None => path,
    }
}

/// The path and query of a URL, as a request target (see `request_target`).
pub fn path_and_query(path: &str, query: Option<&str>) -> (target: String)
    ensures
        target@ == request_target(
            path@,
            match query {
                Some(q) => Some(q@),
                None => None,
            },
        ),
{
    let mut target = owned(path);
    match query {
        Some(q) => {
            target.push('?');
            push_str(&mut target, q);
        },
        None => {},
    }
    target
}

} // verus!
