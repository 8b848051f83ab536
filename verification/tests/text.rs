use character_session::text::{chars_of, contains, starts_with, take_before_first};

#[test]
fn chars_of_gives_the_characters_in_order() {
    assert_eq!(chars_of("héllo"), vec!['h', 'é', 'l', 'l', 'o']);
    assert_eq!(chars_of(""), Vec::<char>::new());
}

#[test]
fn contains_finds_a_needle_anywhere() {
    assert!(contains("hello world", "hello"));
    assert!(contains("hello world", "lo wo"));
    assert!(contains("hello world", "world"));
    assert!(contains("hello world", ""));
    assert!(contains("", ""));
    assert!(contains("aab", "ab"));
    assert!(contains("日本語のテキスト", "のテ"));
}

#[test]
fn contains_rejects_what_is_not_there() {
    assert!(!contains("hello world", "worlds"));
    assert!(!contains("hello", "hello world"));
    assert!(!contains("", "a"));
    assert!(!contains("abcabc", "acb"));
}

#[test]
fn starts_with_looks_at_the_beginning_only() {
    assert!(starts_with("prompt and more", "prompt"));
    assert!(starts_with("prompt", "prompt"));
    assert!(starts_with("anything", ""));
    assert!(!starts_with("a prompt", "prompt"));
    assert!(!starts_with("pro", "prompt"));
}

#[test]
fn take_before_first_cuts_at_the_first_stop() {
    assert_eq!(take_before_first("alice.json", '.'), "alice");
    assert_eq!(take_before_first("alice.v2.json", '.'), "alice");
    assert_eq!(take_before_first("alice", '.'), "alice");
    assert_eq!(take_before_first(".hidden", '.'), "");
    assert_eq!(take_before_first("", '.'), "");
    assert_eq!(take_before_first("zoë.json", '.'), "zoë");
}
