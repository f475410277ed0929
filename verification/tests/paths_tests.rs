use fabrik::paths::ends_in_char;
use fabrik::paths::join_path;
use fabrik::paths::normalize_separators;
use fabrik::paths::parent_dir;
use fabrik::paths::trim_text;

#[test]
fn normalize_replaces_every_backslash() {
    assert_eq!(normalize_separators("C:\\a\\b.aia"), "C:/a/b.aia");
    assert_eq!(normalize_separators("/already/fine"), "/already/fine");
    assert_eq!(normalize_separators(""), "");
    assert_eq!(normalize_separators("\\\\server\\share"), "//server/share");
}

#[test]
fn join_uses_forward_slash() {
    assert_eq!(join_path("/a/b", "c.txt"), "/a/b/c.txt");
    assert_eq!(join_path("", "c"), "/c");
}

#[test]
fn parent_strips_last_component() {
    assert_eq!(parent_dir("/a/b/c"), Some("/a/b".to_string()));
    assert_eq!(parent_dir("C:\\a\\b"), Some("C:\\a".to_string()));
    assert_eq!(parent_dir("/a"), Some("".to_string()));
    assert_eq!(parent_dir("plain"), None);
    assert_eq!(parent_dir(""), None);
}

#[test]
fn trim_removes_surrounding_whitespace_only() {
    assert_eq!(trim_text("  {\"a\": 1}\n\t"), "{\"a\": 1}");
    assert_eq!(trim_text("no-trim"), "no-trim");
    assert_eq!(trim_text(" \r\n\t "), "");
    assert_eq!(trim_text("a b"), "a b");
}

#[test]
fn ends_in_char_checks_last_character() {
    assert!(ends_in_char("{}", '}'));
    assert!(!ends_in_char("{} ", '}'));
    assert!(!ends_in_char("", '}'));
}
