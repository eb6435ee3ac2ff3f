use gotify_client::text::{has_prefix, same_text, trim_leading, trim_trailing};

#[test]
fn trim_trailing_removes_one_slash() {
    assert_eq!(trim_trailing("http://h/", '/'), "http://h");
}

#[test]
fn trim_trailing_removes_every_slash() {
    assert_eq!(trim_trailing("http://h///", '/'), "http://h");
}

#[test]
fn trim_trailing_leaves_text_without_slash() {
    assert_eq!(trim_trailing("http://h", '/'), "http://h");
}

#[test]
fn trim_trailing_of_slashes_only_is_empty() {
    assert_eq!(trim_trailing("//", '/'), "");
    assert_eq!(trim_trailing("", '/'), "");
}

#[test]
fn trim_trailing_keeps_inner_slashes() {
    assert_eq!(trim_trailing("a/b/c/", '/'), "a/b/c");
}

#[test]
fn trim_trailing_counts_characters_not_bytes() {
    assert_eq!(trim_trailing("服务器//", '/'), "服务器");
}

#[test]
fn has_prefix_on_match_and_mismatch() {
    assert!(has_prefix("https://x", "https://"));
    assert!(!has_prefix("http://x", "https://"));
    assert!(has_prefix("http://x", "http://"));
}

#[test]
fn has_prefix_longer_than_text() {
    assert!(!has_prefix("http", "http://"));
}

#[test]
fn has_prefix_empty_prefix() {
    assert!(has_prefix("abc", ""));
    assert!(has_prefix("", ""));
}

#[test]
fn has_prefix_is_case_sensitive() {
    assert!(!has_prefix("HTTPS://x", "https://"));
}

#[test]
fn trim_leading_removes_one_prefix() {
    assert_eq!(trim_leading("https://example.com", "https://"), "example.com");
}

#[test]
fn trim_leading_removes_repetitions() {
    assert_eq!(trim_leading("http://http://h", "http://"), "h");
}

#[test]
fn trim_leading_without_prefix() {
    assert_eq!(trim_leading("example.com", "http://"), "example.com");
}

#[test]
fn trim_leading_empty_prefix_changes_nothing() {
    assert_eq!(trim_leading("abc", ""), "abc");
}

#[test]
fn trim_leading_whole_text() {
    assert_eq!(trim_leading("http://", "http://"), "");
}

#[test]
fn trim_leading_with_wide_characters() {
    assert_eq!(trim_leading("é-é-x", "é-"), "x");
}

#[test]
fn same_text_compares_whole_texts() {
    assert!(same_text("quit", "quit"));
    assert!(!same_text("quit", "quits"));
    assert!(!same_text("quits", "quit"));
    assert!(!same_text("quit", "quiz"));
    assert!(same_text("", ""));
}
