use character_session::textgen::api::Message;

fn turn(speaker: &str, content: &str) -> Message {
    Message { speaker: speaker.to_string(), content: content.to_string() }
}

#[test]
fn a_turn_is_rendered_as_speaker_colon_content() {
    assert_eq!(turn("Alice", "hello there").to_string(), "Alice: hello there");
}

#[test]
fn a_turn_with_empty_parts_keeps_the_separator() {
    assert_eq!(turn("", "").to_string(), ": ");
    assert_eq!(turn("Bob", "").to_string(), "Bob: ");
}

#[test]
fn no_turns_give_the_empty_text() {
    assert_eq!(Message::format_conversation(&Vec::new()), "");
}

#[test]
fn one_turn_has_no_newline() {
    assert_eq!(Message::format_conversation(&vec![turn("Alice", "hi")]), "Alice: hi");
}

#[test]
fn turns_are_joined_by_newlines_in_their_order() {
    let turns = vec![turn("Alice", "hi"), turn("Bob", "hello"), turn("Alice", "bye")];
    assert_eq!(Message::format_conversation(&turns), "Alice: hi\nBob: hello\nAlice: bye");
}

#[test]
fn text_outside_ascii_is_kept() {
    let turns = vec![turn("Zoë", "naïve café"), turn("ボット", "こんにちは")];
    assert_eq!(Message::format_conversation(&turns), "Zoë: naïve café\nボット: こんにちは");
}
