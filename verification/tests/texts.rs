use chat_relay::identity::ConnectionIdentity;
use chat_relay::message::{
    chat_line, departure_announcement, join_announcement, usage_hint, username_prompt, welcome,
    ChatEvent,
};

#[test]
fn prompt_text() {
    assert_eq!(username_prompt(), "Insert username: ");
}

#[test]
fn welcome_text() {
    assert_eq!(welcome("alice"), "\r\nWelcome to our house chat alice!\r\n");
}

#[test]
fn usage_hint_text() {
    assert_eq!(
        usage_hint(),
        "\r\nYou can now type any message.\r\nPress Enter and it will be sent to the other people connected!\r\n\r\n"
    );
}

#[test]
fn join_announcement_text() {
    assert_eq!(
        join_announcement("alice", "Tue Nov 14 23:13:20 2023"),
        "alice has connected to the chat! (Tue Nov 14 23:13:20 2023)\r\n"
    );
}

#[test]
fn chat_line_text() {
    assert_eq!(chat_line("23:13:20", "alice", "hello\r\n"), "(23:13:20) alice: hello\r\n");
}

#[test]
fn chat_line_keeps_the_line_as_read() {
    assert_eq!(chat_line("00:00:00", "bob", "hi there\n"), "(00:00:00) bob: hi there\n");
    assert_eq!(chat_line("00:00:00", "bob", "\r\n"), "(00:00:00) bob: \r\n");
    assert_eq!(chat_line("00:00:00", "bob", ""), "(00:00:00) bob: ");
}

#[test]
fn departure_announcement_text() {
    assert_eq!(
        departure_announcement("bob", "Thu Jan  1 01:00:00 1970"),
        "bob has disconnected (Thu Jan  1 01:00:00 1970)\r\n"
    );
}

#[test]
fn chat_event_holds_text_and_origin() {
    let origin = ConnectionIdentity::from_token(3);
    let event = ChatEvent::new(String::from("hello"), origin);
    assert_eq!(event.text(), "hello");
    assert_eq!(event.origin(), origin);
    assert_eq!(event.origin().token(), 3);
}

#[test]
fn identities_compare_by_token() {
    let a = ConnectionIdentity::from_token(1);
    let b = ConnectionIdentity::from_token(2);
    assert!(a.same_as(&ConnectionIdentity::from_token(1)));
    assert!(!a.same_as(&b));
    assert_eq!(a, ConnectionIdentity::from_token(1));
    assert_ne!(a, b);
}
