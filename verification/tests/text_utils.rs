use updatenight_cli::text::{byte_prefix, chunk_chars, concat3, decimal_string, join, same_text};

#[test]
fn decimal_string_matches_to_string() {
    for n in [0u32, 7, 10, 99, 100, 12345, u32::MAX] {
        assert_eq!(decimal_string(n), n.to_string());
    }
}

#[test]
fn join_puts_separator_between() {
    let v: Vec<String> = vec!["llm".into(), "rag".into(), "agents".into()];
    assert_eq!(join(&v, ", "), "llm, rag, agents");
    assert_eq!(join(&Vec::new(), ", "), "");
    assert_eq!(join(&vec!["one".to_string()], ", "), "one");
}

#[test]
fn chunk_chars_cuts_by_characters() {
    assert_eq!(chunk_chars("abcdefg", 3), vec!["abc", "def", "g"]);
    assert_eq!(chunk_chars("abcdef", 3), vec!["abc", "def"]);
    assert_eq!(chunk_chars("", 3), Vec::<String>::new());
    assert_eq!(chunk_chars("\u{e9}t\u{e9}", 2), vec!["\u{e9}t", "\u{e9}"]);
}

#[test]
fn byte_prefix_respects_char_boundaries() {
    assert_eq!(byte_prefix("2024-05-01T10:00:00Z", 10).as_deref(), Some("2024-05-01"));
    assert_eq!(byte_prefix("short", 10), None);
    assert_eq!(byte_prefix("123456789\u{e9}", 10), None);
    assert_eq!(byte_prefix("0123456789", 10).as_deref(), Some("0123456789"));
}

#[test]
fn same_text_and_concat() {
    assert!(same_text(&"abc".to_string(), "abc"));
    assert!(!same_text(&"abc".to_string(), "abd"));
    assert_eq!(concat3("a", "b", "c"), "abc");
}
