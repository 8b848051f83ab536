use character_session::history::{
    extract_window, HistoryPolicy, RawMessage, DEFAULT_WINDOW_CAP, FENCE_MARKER,
};
use character_session::textgen::api::Message;

fn user(text: &str) -> RawMessage {
    RawMessage::new("user".to_string(), text.to_string(), false)
}

fn own(text: &str) -> RawMessage {
    RawMessage::new("self".to_string(), text.to_string(), true)
}

fn contents(window: &Vec<Message>) -> Vec<String> {
    window.iter().map(|m| m.content.clone()).collect()
}

#[test]
fn the_marker_and_the_default_cap() {
    assert_eq!(FENCE_MARKER, "--- Message Fence ---");
    assert_eq!(DEFAULT_WINDOW_CAP, 10);
}

#[test]
fn new_sets_the_fence_flag_from_the_text() {
    assert!(own("--- Message Fence ---").is_fence);
    assert!(own("--- Message Fence ---\nBots won't see any messages above this one!").is_fence);
    assert!(user("before --- Message Fence --- after").is_fence);
    assert!(!user("--- Message Fence --").is_fence);
    assert!(!user("").is_fence);
    let m = own("hello");
    assert_eq!(m.speaker, "self");
    assert_eq!(m.content, "hello");
    assert!(m.is_self);
    assert!(!m.is_fence);
}

#[test]
fn a_fence_as_newest_message_gives_an_empty_window() {
    let log = vec![own("--- Message Fence ---"), user("A"), user("B")];
    let window = extract_window(&log, &HistoryPolicy::canonical(10));
    assert!(window.is_empty());
}

#[test]
fn a_fence_hides_what_is_older() {
    let log = vec![user("B"), own("--- Message Fence ---"), user("A")];
    let window = extract_window(&log, &HistoryPolicy::canonical(10));
    assert_eq!(contents(&window), vec!["B"]);
    assert_eq!(window[0].speaker, "user");
}

#[test]
fn the_cap_bounds_the_window_and_the_order_is_oldest_first() {
    let log = vec![user("C"), user("B"), user("A")];
    let window = extract_window(&log, &HistoryPolicy::canonical(2));
    assert_eq!(contents(&window), vec!["B", "C"]);
}

#[test]
fn an_empty_log_gives_an_empty_window() {
    assert!(extract_window(&Vec::new(), &HistoryPolicy::canonical(10)).is_empty());
}

#[test]
fn a_cap_of_zero_gives_an_empty_window() {
    let log = vec![user("C"), user("B")];
    assert!(extract_window(&log, &HistoryPolicy::canonical(0)).is_empty());
}

#[test]
fn self_authored_and_empty_messages_are_dropped_but_counted() {
    let log = vec![user("D"), own("reply"), user(""), user("C"), user("B")];
    let window = extract_window(&log, &HistoryPolicy::canonical(4));
    assert_eq!(contents(&window), vec!["C", "D"]);
}

#[test]
fn a_window_of_only_self_authored_and_empty_messages_is_empty() {
    let log = vec![own("one"), user(""), own("two")];
    assert!(extract_window(&log, &HistoryPolicy::canonical(10)).is_empty());
}

#[test]
fn a_marker_from_someone_else_is_no_fence() {
    let log = vec![user("B"), user("--- Message Fence ---"), user("A")];
    let window = extract_window(&log, &HistoryPolicy::canonical(10));
    assert_eq!(contents(&window), vec!["A", "--- Message Fence ---", "B"]);
}

#[test]
fn a_fence_beyond_the_cap_changes_nothing() {
    let with_fence = vec![user("C"), user("B"), own("--- Message Fence ---"), user("A")];
    let without = vec![user("C"), user("B")];
    let policy = HistoryPolicy::canonical(2);
    assert_eq!(
        contents(&extract_window(&with_fence, &policy)),
        contents(&extract_window(&without, &policy))
    );
}

#[test]
fn what_is_older_than_the_fence_does_not_matter() {
    let first = vec![user("B"), own("--- Message Fence ---"), user("A"), user("Z")];
    let second = vec![user("B"), own("--- Message Fence ---"), user("Z"), own("x"), user("A")];
    for cap in [0usize, 1, 2, 3, 10] {
        let policy = HistoryPolicy::canonical(cap);
        assert_eq!(
            contents(&extract_window(&first, &policy)),
            contents(&extract_window(&second, &policy))
        );
    }
}

#[test]
fn the_plain_policy_knows_neither_fences_nor_self() {
    let log = vec![user("B"), own("--- Message Fence ---"), user(""), user("A")];
    let window = extract_window(&log, &HistoryPolicy::plain(15));
    assert_eq!(contents(&window), vec!["A", "--- Message Fence ---", "B"]);
}

#[test]
fn the_policies_are_what_they_say() {
    let full = HistoryPolicy::canonical(7);
    assert_eq!((full.cap, full.honor_fence, full.drop_self), (7, true, true));
    let plain = HistoryPolicy::plain(15);
    assert_eq!((plain.cap, plain.honor_fence, plain.drop_self), (15, false, false));
}
