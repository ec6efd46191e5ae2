use solidgate_connector::text::{has_edge_whitespace, join_strings, take_chars, trim_end_matching};

#[test]
fn take_chars_counts_characters() {
    assert_eq!(take_chars("api_pk_abcdefgh", 7), "api_pk_");
    assert_eq!(take_chars("ab", 7), "ab");
    assert_eq!(take_chars("ключ-значение", 4), "ключ");
    assert_eq!(take_chars("", 3), "");
}

#[test]
fn trim_end_removes_only_trailing_slashes() {
    assert_eq!(trim_end_matching("https://h/api//", '/'), "https://h/api");
    assert_eq!(trim_end_matching("https://h/api", '/'), "https://h/api");
    assert_eq!(trim_end_matching("///", '/'), "");
    assert_eq!(trim_end_matching("", '/'), "");
}

#[test]
fn edge_whitespace() {
    assert!(has_edge_whitespace(" a"));
    assert!(has_edge_whitespace("a\t"));
    assert!(has_edge_whitespace("a\u{3000}"));
    assert!(!has_edge_whitespace("a b"));
    assert!(!has_edge_whitespace(""));
}

#[test]
fn join_with_separator() {
    let list = vec!["a".to_string(), "b".to_string(), "c".to_string()];
    assert_eq!(join_strings(&list, "; "), "a; b; c");
    assert_eq!(join_strings(&vec!["x".to_string()], "; "), "x");
    assert_eq!(join_strings(&Vec::new(), "; "), "");
}
