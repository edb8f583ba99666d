use gourami_social::db::note::{
    format_relative_time, parse_note_text, Note, UserNote,
};
use gourami_social::db::user::{password_verdict, RegisterForm, User};
use gourami_social::db::server_mutuals::{get_destinations, should_accept, ServerMutual};
use gourami_social::feed::{generate_rss_items, rfc2822_can_write};
use gourami_social::session::{new_session_secret, session_cookie_header};
use gourami_social::web::{
    default_page, has_more, mention_notification, new_note_input, registration_outcome,
    reply_notification, RegisterError,
    outgoing_destinations, page_notes, page_offset, registration, GetPostsParams, Global,
    PAGE_FETCH, PAGE_SIZE,
};

fn user(name: &str, admin: bool) -> User {
    User { id: 4, username: name.to_string(), admin, ..User::default() }
}

#[test]
fn authenticate_checks_bcrypt_hash() {
    let hash = bcrypt::hash("hunter22", 4).unwrap();
    let mut u = user("joe", false);
    u.password = Some(hash);
    assert_eq!(User::authenticate(Some(u.clone()), "hunter22").map(|u| u.username), Some("joe".to_string()));
    assert!(User::authenticate(Some(u.clone()), "wrong").is_none());
    assert!(User::authenticate(None, "hunter22").is_none());
    let mut remote = user("r", false);
    remote.password = None;
    assert!(User::authenticate(Some(remote), "").is_none());
    let mut bad = user("b", false);
    bad.password = Some("not a hash".to_string());
    assert!(User::authenticate(Some(bad), "x").is_none());
}

#[test]
fn register_form_rejects_weak_passwords() {
    let weak = RegisterForm { username: "a".into(), password: "password".into(), email: "".into() };
    assert_eq!(weak.validate(), Err("Please come up with a more secure password."));
    let strong = RegisterForm {
        username: "a".into(),
        password: "correct horse battery staple".into(),
        email: "".into(),
    };
    assert_eq!(strong.validate(), Ok(()));
}

#[test]
fn user_urls_and_edit_rights() {
    let u = user("joe", false);
    assert_eq!(u.get_url("g.example"), "g.example/user/joe");
    assert!(u.can_edit("joe"));
    assert!(!u.can_edit("sally"));
    assert!(user("admin", true).can_edit("sally"));
}

#[test]
fn session_secrets_and_cookie() {
    let a = new_session_secret();
    let b = new_session_secret();
    assert_eq!(a.len(), 48);
    assert!(a.chars().all(|c| c.is_ascii_alphanumeric()));
    assert_ne!(a, b);
    assert_eq!(
        session_cookie_header("abc"),
        "EXAUTH=abc; MAX-AGE=31536000; SameSite=Strict; HttpOpnly"
    );
}

#[test]
fn paging() {
    assert_eq!(default_page(), 1);
    let p = GetPostsParams::default();
    assert_eq!(p.page, 1);
    assert!(p.user_id.is_none());
    assert_eq!(page_offset(1), 0);
    assert_eq!(page_offset(3), 100);
    assert_eq!(page_offset(0), -50);
    // A page query fetches one note more than a page shows.
    assert_eq!(PAGE_FETCH, PAGE_SIZE + 1);
    assert!(!has_more(49));
    assert!(!has_more(50));
    assert!(has_more(51));
}

#[test]
fn a_page_shows_at_most_a_page_of_notes() {
    let fetched: Vec<UserNote> = (0..51).map(user_note).collect();
    let shown = page_notes(fetched);
    assert_eq!(shown.len(), 50);
    assert_eq!(shown[49].note.id, 49);
    let shown = page_notes((0..3).map(user_note).collect());
    assert_eq!(shown.iter().map(|n| n.note.id).collect::<Vec<_>>(), vec![0, 1, 2]);
}

#[test]
fn page_header() {
    let g = Global::default();
    assert_eq!(g.title, "gourami");
    assert_eq!(g.page_num, 1);
    assert!(!g.logged_in);
    let g = Global::create(Some(user("joe", false)), "/notifications", 3);
    assert!(g.logged_in);
    assert_eq!(g.page, "/notifications");
    assert_eq!(g.page_title, "notifications");
    assert_eq!(g.unread_notifications, 3);
    assert_eq!(g.me.username, "joe");
    let g = Global::create(None, "register", 3);
    assert!(!g.logged_in);
    assert_eq!(g.page, "register");
    assert_eq!(g.page_title, "");
    assert_eq!(g.unread_notifications, 0);
    assert_eq!(g.me.id, 0);
    assert_eq!(g.me.username, "");
    assert!(g.me.email.is_none());
    assert_eq!(g.me.bio, "");
    assert_eq!(g.me.created_time, "");
    assert!(g.me.password.is_none());
    assert!(!g.me.admin);
    assert!(g.me.remote_url.is_none());
}

fn form(password: &str) -> RegisterForm {
    RegisterForm {
        username: "alice".to_string(),
        password: password.to_string(),
        email: "alice@example.com".to_string(),
    }
}

#[test]
fn registration_stores_a_bcrypt_hash() {
    let f = form("correct horse battery staple");
    let u = registration(&f, Some(true)).unwrap();
    assert_eq!(u.username, "alice");
    assert_eq!(u.email, "alice@example.com");
    assert_ne!(u.password, f.password);
    assert!(bcrypt::verify("correct horse battery staple", &u.password).unwrap());
    assert!(!bcrypt::verify("wrong", &u.password).unwrap());
    assert_eq!(registration(&f, Some(false)).err(), Some(RegisterError::NoValidKey));
    assert_eq!(registration(&f, None).err(), Some(RegisterError::NoValidKey));
    assert_eq!(registration(&form("password"), Some(true)).err(), Some(RegisterError::WeakPassword));
    assert_eq!(registration(&form("password"), None).err(), Some(RegisterError::WeakPassword));
}

fn mutual(actor_id: &str) -> ServerMutual {
    ServerMutual {
        id: 1,
        actor_id: actor_id.to_string(),
        inbox_url: format!("{}/inbox", actor_id),
        accepted: false,
        followed_back: false,
        outbox_url: None,
    }
}

#[test]
fn follows_only_from_whitelisted_actors() {
    let mutuals = vec![mutual("https://a.example/actor"), mutual("https://b.example/actor")];
    assert!(should_accept(&mutuals, "https://b.example/actor"));
    assert!(!should_accept(&mutuals, "https://c.example/actor"));
    assert!(!should_accept(&mutuals, "https://b.example/actor/"));
    assert!(!should_accept(&[], "https://a.example/actor"));
}

#[test]
fn rfc2822_range() {
    assert!(rfc2822_can_write(0));
    assert!(rfc2822_can_write(-62167219200));
    assert!(!rfc2822_can_write(-62167219201));
    assert!(rfc2822_can_write(253402300799));
    assert!(!rfc2822_can_write(253402300800));
}

#[test]
fn writing_a_note() {
    let n = new_note_input(9, "📝123 cool post >>456", true);
    assert_eq!(n.user_id, 9);
    assert_eq!(n.in_reply_to, Some(123));
    assert_eq!(n.content, parse_note_text("📝123 cool post >>456"));
    assert!(n.neighborhood);
    assert_eq!(new_note_input(9, "plain", false).in_reply_to, None);
}

#[test]
fn mentions_notify_others() {
    assert!(mention_notification("joe", 5, "no mentions").is_none());
    let (n, recipients) = mention_notification("joe", 5, "@joe hi @sally and @bob @sally").unwrap();
    assert_eq!(recipients, vec!["sally".to_string(), "bob".to_string(), "sally".to_string()]);
    assert!(!n.server_message);
    assert_eq!(
        n.notification_html,
        "<a href=\"/user/joe\">@joe</a> mentioned you in a note <a href=\"/note/5\">📝5</a>"
    );
    let (_, only_self) = mention_notification("joe", 6, "@joe").unwrap();
    assert!(only_self.is_empty());
}

#[test]
fn relative_time_text() {
    assert_eq!(format_relative_time(0, "2020-05-08"), "0s");
    assert_eq!(format_relative_time(60, "2020-05-08"), "60s");
    assert_eq!(format_relative_time(61, "2020-05-08"), "1m");
    assert_eq!(format_relative_time(3600, "2020-05-08"), "60m");
    assert_eq!(format_relative_time(3660, "2020-05-08"), "1h");
    assert_eq!(format_relative_time(25 * 3600, "2020-05-08"), "1d");
    assert_eq!(format_relative_time(31 * 86400, "2020-05-08"), "2020-05-08");
    assert_eq!(format_relative_time(-5, "2020-05-08"), "-5s");
    assert_eq!(format_relative_time(i64::MIN, "x"), "-9223372036854775808s");
}

#[test]
fn relative_timestamp_of_old_note() {
    let n = Note {
        id: 1,
        user_id: 1,
        in_reply_to: None,
        content: String::new(),
        created_time: 1_588_898_561,
        created_nanos: 0,
        neighborhood: false,
        is_remote: false,
        remote_id: None,
    };
    assert_eq!(n.relative_timestamp(), "2020-05-08");
}

fn user_note(id: i32) -> UserNote {
    UserNote {
        note: Note {
            id,
            user_id: 1,
            in_reply_to: None,
            content: format!("note {}", id),
            created_time: 1_588_898_561,
            created_nanos: 0,
            neighborhood: false,
            is_remote: false,
            remote_id: None,
        },
        username: "joe".to_string(),
    }
}

#[test]
fn feed_lists_fifty_notes() {
    let notes: Vec<UserNote> = (0..60).map(user_note).collect();
    let items = generate_rss_items(&notes, "https://g.example");
    assert_eq!(items.len(), 50);
    assert_eq!(items[7].guid, "https://g.example/note/7");
    assert!(items[7].guid_is_permalink);
    assert_eq!(items[7].link, "https://g.example/note/7");
    assert_eq!(items[7].title, "note 7");
    assert_eq!(items[7].description, "note 7");
    assert_eq!(items[7].pub_date, "Fri, 8 May 2020 00:42:41 +0000");
    assert_eq!(items[7].creators, vec!["joe".to_string()]);
    assert_eq!(generate_rss_items(&notes[..3], "x").len(), 3);
}

#[test]
fn destinations_are_connected_inboxes() {
    let m = |id: i32, accepted: bool, followed_back: bool| ServerMutual {
        id,
        actor_id: format!("https://r{}.example/actor", id),
        inbox_url: format!("https://r{}.example/inbox", id),
        accepted,
        followed_back,
        outbox_url: None,
    };
    let mutuals = vec![m(1, true, true), m(2, true, false), m(3, false, true), m(4, true, true)];
    assert_eq!(
        get_destinations(&mutuals),
        vec!["https://r1.example/inbox".to_string(), "https://r4.example/inbox".to_string()]
    );
    assert!(get_destinations(&[]).is_empty());
}

#[test]
fn local_notes_stay_local() {
    let inboxes = vec!["https://r.example/inbox".to_string()];
    assert_eq!(outgoing_destinations(true, inboxes.clone()), inboxes);
    assert!(outgoing_destinations(false, inboxes).is_empty());
}

#[test]
fn registration_needs_key_and_password() {
    let strong = RegisterForm {
        username: "a".into(),
        password: "correct horse battery staple".into(),
        email: "".into(),
    };
    let weak = RegisterForm { username: "a".into(), password: "password".into(), email: "".into() };
    assert!(registration_outcome(&strong, 1, Some(true)).is_ok());
    assert!(registration_outcome(&strong, 4, Some(true)).is_ok());
    assert_eq!(registration_outcome(&strong, 4, Some(false)).err(), Some(RegisterError::NoValidKey));
    assert_eq!(registration_outcome(&strong, 4, None).err(), Some(RegisterError::NoValidKey));
    assert_eq!(registration_outcome(&weak, 0, Some(true)).err(), Some(RegisterError::WeakPassword));
    assert_eq!(registration_outcome(&weak, 0, None).err(), Some(RegisterError::WeakPassword));
    assert_eq!(password_verdict(0), Err("Please come up with a more secure password."));
    assert_eq!(password_verdict(1), Ok(()));
}

#[test]
fn a_reply_notifies_the_author_replied_to() {
    let (n, to) = reply_notification("joe", 4, 12, Some(9)).unwrap();
    assert_eq!(to, 9);
    assert!(!n.server_message);
    assert_eq!(
        n.notification_html,
        parse_note_text("@joe replied to your note 📝12")
    );
    assert_eq!(
        n.notification_html,
        "<a href=\"/user/joe\">@joe</a> replied to your note <a href=\"/note/12\">📝12</a>"
    );
    assert!(reply_notification("joe", 4, 12, Some(4)).is_none());
    assert!(reply_notification("joe", 4, 12, None).is_none());
}
