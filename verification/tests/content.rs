use dual_webview::{classify_content, is_url, Content};

#[test]
fn scheme_in_first_ten_characters_is_a_url() {
    assert!(is_url("https://example.com"));
    assert!(is_url("x://y"));
    assert!(is_url("about:blank") == false);
    // The separator's three characters occupy positions 7..10: still
    // within the first ten.
    assert!(is_url("abcdefg://rest"));
}

#[test]
fn scheme_past_the_first_ten_characters_is_content() {
    // The separator starts at position 8, so it reaches position 10: out.
    assert!(!is_url("abcdefgh://rest"));
    assert!(!is_url("this text mentions http:// later"));
}

#[test]
fn markup_and_plain_text_are_content() {
    assert!(!is_url("<html>hi</html>"));
    assert!(!is_url(""));
    assert!(!is_url("hello"));
    assert!(!is_url(":/"));
}

#[test]
fn separator_position_counts_characters_not_bytes() {
    // Three non-ASCII characters precede the separator: position 3.
    assert!(is_url("日本語://x"));
    // Eight of them push it past the first ten characters.
    assert!(!is_url("日本語日本語日本://x"));
}

#[test]
fn classification_keeps_the_text() {
    match classify_content("https://example.com".to_string()) {
        Content::Url(u) => assert_eq!(u, "https://example.com"),
        Content::Html(_) => panic!("a URL was classified as inline content"),
    }
    match classify_content("<html>hi</html>".to_string()) {
        Content::Html(h) => assert_eq!(h, "<html>hi</html>"),
        Content::Url(_) => panic!("inline content was classified as a URL"),
    }
}
