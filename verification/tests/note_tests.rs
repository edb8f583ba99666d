use gourami_social::db::note::{
    get_mentions, get_reply, get_url, parse_note_text, remove_unacceptable_html,
};

#[test]
fn note_test_empty_string() {
    assert!(parse_note_text("") == "")
}

#[test]
fn test_escape_html() {
    let example = "<script>haxxor</script>hi>";
    assert!(parse_note_text(example) == "hi&gt;");
}

#[test]
fn test_string_without_urls() {
    let src = "<p>Some HTML</p>";
    assert!(parse_note_text(src) == src);
}

#[test]
fn test_string_with_http_urls() {
    let src = "Check this out: https://doc.rust-lang.org";
    let linked =
        "Check this out: <a href=\"https://doc.rust-lang.org\">https://doc.rust-lang.org</a>";
    assert!(parse_note_text(src) == linked)
}

#[test]
fn test_string_with_mailto_urls() {
    let src = "Send spam to mailto://oz@cypr.io";
    assert!(
        parse_note_text(src)
            == "Send spam to <a href=\"mailto://oz@cypr.io\">mailto://oz@cypr.io</a>"
    )
}

#[test]
fn test_user_replace() {
    let src = "@joe whats up @sally";
    let linked = "<a href=\"/user/joe\">@joe</a> whats up <a href=\"/user/sally\">@sally</a>";
    assert!(parse_note_text(src) == linked)
}

#[test]
fn test_note_replace() {
    let src = "📝123 cool post >>456";
    let linked =
        "<a href=\"/note/123\">📝123</a> cool post <a href=\"/note/456\">&gt;&gt;456</a>";
    assert!(parse_note_text(src) == linked)
}

#[test]
fn test_get_reply_simple() {
    let src = "📝123 cool post >>456";
    assert!(get_reply(src) == Some(123));
}

#[test]
fn test_get_reply_none() {
    let src = "No reply in this tweet";
    assert!(get_reply(src) == None);
}

#[test]
fn get_url_formats_note_address() {
    assert_eq!(get_url("https://example.com", 42), "https://example.com/note/42");
    assert_eq!(get_url("http://a", -7), "http://a/note/-7");
}

#[test]
fn get_mentions_in_order() {
    assert_eq!(get_mentions("@joe whats up @sally"), vec!["joe".to_string(), "sally".to_string()]);
    assert_eq!(get_mentions("mail me@example.com"), Vec::<String>::new());
    assert_eq!(get_mentions("@"), Vec::<String>::new());
}

#[test]
fn get_reply_overflow_and_double_marker() {
    assert_eq!(get_reply(">>99999999999 then >>5"), None);
    assert_eq!(get_reply("see >>42"), Some(42));
    assert_eq!(get_reply("a>>42"), None);
}

#[test]
fn urls_with_parentheses_and_www() {
    assert_eq!(
        parse_note_text("see www.example.com/x_(y) now"),
        "see <a href=\"www.example.com/x_(y)\">www.example.com/x_(y)</a> now"
    );
    assert_eq!(
        parse_note_text("go http://x."),
        "go <a href=\"http://x\">http://x</a>."
    );
}

#[test]
fn reply_to_marked_number() {
    assert_eq!(get_reply(">>0"), Some(0));
    assert_eq!(get_reply(">>2147483647"), Some(2147483647));
    assert_eq!(get_reply(">>2147483648"), None);
    assert_eq!(get_reply("📝0"), Some(0));
    assert_eq!(get_reply("📝2147483647"), Some(2147483647));
    assert_eq!(get_reply("📝2147483648"), None);
}

#[test]
fn only_p_br_and_span_survive() {
    let clean = remove_unacceptable_html(
        "<span title=\"<x>\">a</span><div>b</div><!-- c --><br><p lang=\"en\">d</p><img src=x>",
    );
    assert_eq!(clean, "<span title=\"&lt;x&gt;\">a</span>b<br><p lang=\"en\">d</p>");
    for (i, c) in clean.char_indices() {
        if c == '<' {
            let rest = clean[i + 1..].trim_start_matches('/');
            assert!(["br", "p", "span"].iter().any(|t| {
                rest.starts_with(t) && matches!(rest[t.len()..].chars().next(), Some(' ' | '/' | '>'))
            }));
        }
    }
}

#[test]
fn a_mention_can_swallow_a_closing_tag() {
    // `\S+` takes the name up to the next space, closing tag included.
    assert_eq!(
        parse_note_text("<p>@joe</p>"),
        "<p><a href=\"/user/joe</p>\">@joe</p></a>"
    );
}
