use gourami_social::ap::{
    classify_inbox_activity, domain_url, follow_accept_message, generate_activity_id,
    generate_server_follow, new_note_to_ap_message, path_and_query, remote_note_input,
    remote_user_for, server_actor_json, server_ap_data, webfinger_json, ApNote, InboxActivity,
    WebFingerQuery,
};
use gourami_social::db::note::Note;
use gourami_social::db::user::User;

fn is_uuid_v4(u: &str) -> bool {
    let c: Vec<char> = u.chars().collect();
    c.len() == 36
        && c.iter().enumerate().all(|(i, ch)| {
            if [8, 13, 18, 23].contains(&i) {
                *ch == '-'
            } else {
                ch.is_ascii_digit() || ('a'..='f').contains(ch)
            }
        })
        && c[14] == '4'
        && "89ab".contains(c[19])
}

fn note(id: i32, content: &str) -> Note {
    Note {
        id,
        user_id: 1,
        in_reply_to: None,
        content: content.to_string(),
        created_time: 1_588_898_561,
        created_nanos: 0,
        neighborhood: true,
        is_remote: false,
        remote_id: None,
    }
}

fn user(name: &str) -> User {
    User { username: name.to_string(), ..User::default() }
}

fn ap_note(content: &str, attributed_to: &str) -> ApNote {
    ApNote {
        content: content.to_string(),
        attributed_to: attributed_to.to_string(),
        url: "https://remote.example/@a/1".to_string(),
        summary: None,
        id: "https://remote.example/users/a/statuses/1".to_string(),
        in_reply_to: None,
    }
}

#[test]
fn ap_test_empty_string() {
    assert_eq!(ap_note("", "https://remote.example/users/a").get_remote_user_name(), None);
}

#[test]
fn test_mastodon_create_status_example() {
    let n = ApNote {
        content: "hello world".to_string(),
        attributed_to: "https://mastodon.social/users/alexwennerberg".to_string(),
        url: "https://mastodon.social/@alexwennerberg/104028309437021899".to_string(),
        summary: None,
        id: "https://mastodon.social/users/alexwennerberg/statuses/104028309437021899".to_string(),
        in_reply_to: None,
    };
    let u = remote_user_for(&n);
    assert_eq!(u.username, "https://mastodon.social/users/alexwennerberg");
    assert!(u.remote_url.is_none());
    let r = remote_note_input(n, 7);
    assert_eq!(r.user_id, 7);
    assert_eq!(r.content, "hello world");
    assert_eq!(r.remote_id, "https://mastodon.social/users/alexwennerberg/statuses/104028309437021899");
    assert!(r.neighborhood && r.is_remote && r.in_reply_to.is_none());
}

#[test]
fn received_notes_are_sanitised() {
    let n = ap_note(
        "<p>hi</p><script>alert(1)</script><b>bold</b><a href=\"x\">link</a>",
        "https://remote.example/users/a",
    );
    let r = remote_note_input(n, 3);
    assert_eq!(r.content, "<p>hi</p>boldlink");
}

#[test]
fn domain_url_follows_ssl_flag() {
    assert_eq!(domain_url("1", "gourami.example"), "https://gourami.example");
    assert_eq!(domain_url("0", "gourami.example"), "http://gourami.example");
    assert_eq!(domain_url("", "localhost:3030"), "http://localhost:3030");
    assert_eq!(domain_url("11", "x"), "http://x");
}

#[test]
fn server_data_addresses() {
    let s = server_ap_data("1", "g.example", "PEM".to_string());
    assert_eq!(s.global_id, "https://g.example");
    assert_eq!(s.key_id, "https://g.example#key");
    assert_eq!(s.inbox, "https://g.example/inbox");
    assert_eq!(s.domain, "g.example");
    assert_eq!(s.public_key, "PEM");
}

#[test]
fn activity_ids_are_fresh_uuids() {
    let a = generate_activity_id("https://g.example");
    let b = generate_activity_id("https://g.example");
    let prefix = "https://g.example/activity/";
    assert!(a.starts_with(prefix) && is_uuid_v4(&a[prefix.len()..]));
    assert!(b.starts_with(prefix) && is_uuid_v4(&b[prefix.len()..]));
    assert_ne!(a, b);
}

#[test]
fn author_prefix_read_back() {
    let n = note(3, "hi there 💬 friends");
    let content = n.get_content_for_outgoing("g.example", "joe");
    assert_eq!(content, "g.example:joe💬 hi there 💬 friends");
    let received = ap_note(&content, "https://g.example");
    assert_eq!(received.get_remote_user_name(), Some("g.example:joe".to_string()));
    assert_eq!(remote_user_for(&received).username, "g.example:joe");
}

#[test]
fn author_prefix_edge_cases() {
    assert_eq!(ap_note("💬💬x", "a").get_remote_user_name(), Some("💬".to_string()));
    assert_eq!(ap_note("💬", "a").get_remote_user_name(), None);
    assert_eq!(ap_note("a\nb💬", "a").get_remote_user_name(), None);
    assert_eq!(remote_user_for(&ap_note("no author", "https://r/u")).username, "https://r/u");
}

#[test]
fn webfinger_names_server_actor() {
    let s = server_ap_data("1", "g.example", "PEM".to_string());
    let w = webfinger_json(WebFingerQuery { resource: "acct:anyone@g.example".to_string() }, &s);
    assert_eq!(w.aliases, vec!["https://g.example".to_string()]);
    assert_eq!(w.links.len(), 1);
    assert_eq!(w.links[0].href, "https://g.example");
    assert_eq!(w.links[0].rel, "self");
    assert_eq!(w.links[0]._type, "application/activity+json");
    assert_eq!(w.subject, "acct:server@g.example");
}

#[test]
fn server_actor_fields() {
    let s = server_ap_data("0", "localhost:3030", "PEM".to_string());
    let a = server_actor_json(&s);
    assert_eq!(a.id, "http://localhost:3030");
    assert_eq!(a._type, "Organization");
    assert_eq!(a.preferred_username, "http://localhost:3030");
    assert_eq!(a.inbox, "http://localhost:3030/inbox");
    assert_eq!(a.name.as_deref(), Some("server"));
    assert_eq!(a.summary.as_deref(), Some("server"));
    assert_eq!(a.public_key.id, "http://localhost:3030#key");
    assert_eq!(a.public_key.owner, "http://localhost:3030");
    assert_eq!(a.public_key.public_key_pem, "PEM");
    let ctx: serde_json::Value = serde_json::from_str(&a.context).unwrap();
    assert_eq!(ctx[0], "https://www.w3.org/ns/activitystreams");
    assert_eq!(ctx[1], "https://w3id.org/security/v1");
}

#[test]
fn create_message_for_note() {
    let s = server_ap_data("1", "g.example", "PEM".to_string());
    let m = new_note_to_ap_message(&note(12, "hello"), &user("joe"), &s);
    assert_eq!(m.context, "https://www.w3.org/ns/activitystreams");
    assert!(m.id.starts_with("https://g.example/activity/"));
    assert_eq!(m._type, "Create");
    assert_eq!(m.actor, "https://g.example");
    assert_eq!(m.published, 1_588_898_561);
    assert_eq!(m.to, vec!["https://www.w3.org/ns/activitystreams#Public".to_string()]);
    assert_eq!(m.object.id, "https://g.example/note/12");
    assert_eq!(m.object.url, "https://g.example/note/12");
    assert_eq!(m.object._type, "Note");
    assert_eq!(m.object.summary, "");
    assert_eq!(m.object.attributed_to, "https://g.example");
    assert_eq!(m.object.content, "g.example:joe💬 hello");
}

#[test]
fn follow_and_accept_messages() {
    let s = server_ap_data("1", "g.example", "PEM".to_string());
    let (f, mutual) = generate_server_follow(&s, "https://r.example/actor", "https://r.example/inbox");
    assert_eq!(f.id, "https://my-example.com/my-first-follow");
    assert_eq!(f._type, "Follow");
    assert_eq!(f.actor, "https://g.example");
    assert_eq!(f.object, "https://r.example/actor");
    assert_eq!(mutual.actor_id, "https://r.example/actor");
    assert_eq!(mutual.inbox_url, "https://r.example/inbox");
    let a = follow_accept_message(&s, "{\"type\":\"Follow\"}".to_string());
    assert_eq!(a._type, "Accept");
    assert_eq!(a.actor, "https://g.example");
    assert_eq!(a.object, "{\"type\":\"Follow\"}");
    assert!(a.id.starts_with("https://g.example/activity/"));
}

#[test]
fn inbox_dispatch() {
    assert_eq!(classify_inbox_activity("Create"), InboxActivity::Create);
    assert_eq!(classify_inbox_activity("Follow"), InboxActivity::Follow);
    assert_eq!(classify_inbox_activity("Accept"), InboxActivity::Accept);
    assert_eq!(classify_inbox_activity("accept"), InboxActivity::Ignore);
    assert_eq!(classify_inbox_activity("Delete"), InboxActivity::Ignore);
}

#[test]
fn request_target() {
    assert_eq!(path_and_query("/inbox", None), "/inbox");
    assert_eq!(path_and_query("/inbox", Some("a=1")), "/inbox?a=1");
    assert_eq!(path_and_query("/", Some("")), "/?");
}
