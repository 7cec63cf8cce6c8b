use chat_relay::clock::Stamp;
use chat_relay::identity::ConnectionIdentity;
use chat_relay::manager::{AcceptOutcome, SessionManager};
use chat_relay::message::ChatEvent;
use chat_relay::session::{Inbound, Phase, ReadFailure, Reaction, Session};

fn stamp() -> Stamp {
    Stamp::from_texts(String::from("12:34:56"), String::from("Mon Jan  1 12:34:56 2024")).unwrap()
}

fn line(text: &str) -> Inbound {
    Inbound::Line(String::from(text))
}

fn joined(token: u64, name: &str) -> Session {
    let (mut session, _) = Session::open(ConnectionIdentity::from_token(token));
    session.on_inbound(line(name), &stamp());
    session
}

fn silence() -> Reaction {
    Reaction { to_client: String::new(), to_bus: None }
}

#[test]
fn a_new_session_asks_for_a_username() {
    let (session, reaction) = Session::open(ConnectionIdentity::from_token(1));
    assert_eq!(session.phase(), Phase::Handshake);
    assert_eq!(session.username(), "");
    assert_eq!(session.identity(), ConnectionIdentity::from_token(1));
    assert_eq!(reaction.to_client, "Insert username: ");
    assert_eq!(reaction.to_bus, None);
}

#[test]
fn handshake_asks_again_after_blank_lines() {
    let (mut session, _) = Session::open(ConnectionIdentity::from_token(1));
    for blank in ["\r\n", "\n", "", "\r\r\n"] {
        let reaction = session.on_inbound(line(blank), &stamp());
        assert_eq!(reaction.to_client, "Insert username: ");
        assert_eq!(reaction.to_bus, None);
        assert_eq!(session.phase(), Phase::Handshake);
        assert_eq!(session.username(), "");
    }
}

#[test]
fn handshake_asks_again_after_a_closed_read() {
    let (mut session, _) = Session::open(ConnectionIdentity::from_token(1));
    let reaction = session.on_inbound(Inbound::Closed, &stamp());
    assert_eq!(reaction.to_client, "Insert username: ");
    assert_eq!(reaction.to_bus, None);
    assert_eq!(session.phase(), Phase::Handshake);
}

#[test]
fn handshake_asks_again_after_a_failed_read() {
    for failure in [ReadFailure::ConnectionReset, ReadFailure::ConnectionAborted, ReadFailure::Other]
    {
        let (mut session, _) = Session::open(ConnectionIdentity::from_token(1));
        let reaction = session.on_inbound(Inbound::Failed(failure), &stamp());
        assert_eq!(reaction.to_client, "Insert username: ");
        assert_eq!(reaction.to_bus, None);
        assert_eq!(session.phase(), Phase::Handshake);
    }
}

#[test]
fn handshake_takes_the_first_name_after_blank_lines() {
    let (mut session, _) = Session::open(ConnectionIdentity::from_token(9));
    session.on_inbound(line("\r\n"), &stamp());
    session.on_inbound(Inbound::Closed, &stamp());
    let reaction = session.on_inbound(line("alice\r\n"), &stamp());
    assert_eq!(session.phase(), Phase::Active);
    assert_eq!(session.username(), "alice");
    assert_eq!(
        reaction.to_client,
        "\r\nWelcome to our house chat alice!\r\n\r\nYou can now type any message.\r\nPress Enter and it will be sent to the other people connected!\r\n\r\n"
    );
    assert_eq!(
        reaction.to_bus,
        Some(ChatEvent::new(
            String::from("alice has connected to the chat! (Mon Jan  1 12:34:56 2024)\r\n"),
            ConnectionIdentity::from_token(9)
        ))
    );
}

#[test]
fn username_keeps_inner_and_trailing_spaces() {
    let session = joined(1, "mary ann \r\n");
    assert_eq!(session.username(), "mary ann ");
}

#[test]
fn username_does_not_change_after_the_handshake() {
    let mut session = joined(1, "alice\r\n");
    session.on_inbound(line("bob\r\n"), &stamp());
    assert_eq!(session.username(), "alice");
    assert_eq!(session.phase(), Phase::Active);
}

#[test]
fn a_line_is_published_in_its_broadcast_form() {
    let mut session = joined(4, "alice\r\n");
    let reaction = session.on_inbound(line("hello\r\n"), &stamp());
    assert_eq!(reaction.to_client, "");
    assert_eq!(
        reaction.to_bus,
        Some(ChatEvent::new(
            String::from("(12:34:56) alice: hello\r\n"),
            ConnectionIdentity::from_token(4)
        ))
    );
    assert_eq!(session.phase(), Phase::Active);
}

#[test]
fn the_same_line_twice_is_published_twice_and_nothing_lingers() {
    let mut session = joined(4, "alice\r\n");
    let first = session.on_inbound(line("one\r\n"), &stamp());
    let second = session.on_inbound(line("two\r\n"), &stamp());
    assert_eq!(first.to_bus.unwrap().text(), "(12:34:56) alice: one\r\n");
    assert_eq!(second.to_bus.unwrap().text(), "(12:34:56) alice: two\r\n");
}

#[test]
fn a_blank_line_in_the_relay_is_published_too() {
    let mut session = joined(4, "alice\r\n");
    let reaction = session.on_inbound(line("\r\n"), &stamp());
    assert_eq!(reaction.to_bus.unwrap().text(), "(12:34:56) alice: \r\n");
}

#[test]
fn a_clean_close_announces_the_departure_and_ends_the_session() {
    let mut session = joined(5, "bob\r\n");
    let reaction = session.on_inbound(Inbound::Closed, &stamp());
    assert_eq!(reaction.to_client, "");
    assert_eq!(
        reaction.to_bus,
        Some(ChatEvent::new(
            String::from("bob has disconnected (Mon Jan  1 12:34:56 2024)\r\n"),
            ConnectionIdentity::from_token(5)
        ))
    );
    assert_eq!(session.phase(), Phase::Terminated);
    assert!(session.is_terminated());
}

#[test]
fn a_reset_is_announced_like_a_clean_close() {
    for failure in [ReadFailure::ConnectionReset, ReadFailure::ConnectionAborted] {
        let mut session = joined(5, "bob\r\n");
        let reaction = session.on_inbound(Inbound::Failed(failure), &stamp());
        assert_eq!(
            reaction.to_bus.unwrap().text(),
            "bob has disconnected (Mon Jan  1 12:34:56 2024)\r\n"
        );
        assert!(session.is_terminated());
    }
}

#[test]
fn another_failure_ends_the_session_without_a_word() {
    let mut session = joined(5, "bob\r\n");
    let reaction = session.on_inbound(Inbound::Failed(ReadFailure::Other), &stamp());
    assert_eq!(reaction, silence());
    assert!(session.is_terminated());
}

#[test]
fn an_ended_session_stays_silent() {
    let mut session = joined(5, "bob\r\n");
    session.on_inbound(Inbound::Closed, &stamp());
    for inbound in [line("still here\r\n"), Inbound::Closed, Inbound::Failed(ReadFailure::Other)] {
        assert_eq!(session.on_inbound(inbound, &stamp()), silence());
        assert!(session.is_terminated());
        assert_eq!(session.username(), "bob");
    }
    let event = ChatEvent::new(String::from("x"), ConnectionIdentity::from_token(6));
    assert_eq!(session.on_bus_event(&event), None);
}

#[test]
fn reset_class_failures() {
    assert!(ReadFailure::ConnectionReset.is_reset_class());
    assert!(ReadFailure::ConnectionAborted.is_reset_class());
    assert!(!ReadFailure::Other.is_reset_class());
}

#[test]
fn a_read_of_no_bytes_is_a_close() {
    assert_eq!(Inbound::from_read(0, String::new()), Inbound::Closed);
    assert_eq!(Inbound::from_read(0, String::from("stale")), Inbound::Closed);
    assert_eq!(Inbound::from_read(7, String::from("hello\r\n")), line("hello\r\n"));
}

#[test]
fn own_events_are_not_written() {
    let mut session = joined(4, "alice\r\n");
    let own = session.on_inbound(line("hello\r\n"), &stamp()).to_bus.unwrap();
    assert_eq!(session.on_bus_event(&own), None);
}

#[test]
fn events_of_others_are_written_verbatim() {
    let session = joined(4, "alice\r\n");
    let event =
        ChatEvent::new(String::from("(12:34:56) bob: hi\r\n"), ConnectionIdentity::from_token(5));
    assert_eq!(session.on_bus_event(&event), Some("(12:34:56) bob: hi\r\n"));
    assert_eq!(session.phase(), Phase::Active);
}

#[test]
fn a_session_in_its_handshake_writes_no_events() {
    let (session, _) = Session::open(ConnectionIdentity::from_token(4));
    let event = ChatEvent::new(String::from("hi\r\n"), ConnectionIdentity::from_token(5));
    assert_eq!(session.on_bus_event(&event), None);
}

#[test]
fn the_manager_gives_every_session_its_own_identity() {
    let mut manager = SessionManager::new();
    assert_eq!(manager.issued(), 0);
    let (first, prompt) = manager.on_accept(AcceptOutcome::Connected).unwrap();
    let (second, _) = manager.on_accept(AcceptOutcome::Connected).unwrap();
    let (third, _) = manager.on_accept(AcceptOutcome::Connected).unwrap();
    assert_eq!(prompt.to_client, "Insert username: ");
    assert_eq!(prompt.to_bus, None);
    assert_eq!(first.phase(), Phase::Handshake);
    assert_ne!(first.identity(), second.identity());
    assert_ne!(first.identity(), third.identity());
    assert_ne!(second.identity(), third.identity());
    assert_eq!(first.identity().token(), 0);
    assert_eq!(second.identity().token(), 1);
    assert_eq!(manager.issued(), 3);
}

#[test]
fn a_failed_accept_opens_nothing_and_the_loop_goes_on() {
    let mut manager = SessionManager::new();
    assert!(manager.on_accept(AcceptOutcome::Failed).is_none());
    assert_eq!(manager.issued(), 0);
    let (first, _) = manager.on_accept(AcceptOutcome::Connected).unwrap();
    assert!(manager.on_accept(AcceptOutcome::Failed).is_none());
    let (second, _) = manager.on_accept(AcceptOutcome::Connected).unwrap();
    assert_eq!(first.identity().token(), 0);
    assert_eq!(second.identity().token(), 1);
}
