use chat_relay::clock::{has_calendar_shape, has_clock_shape, Stamp};
use chat_relay::manager::{AcceptOutcome, SessionManager};
use chat_relay::message::ChatEvent;
use chat_relay::session::{Inbound, Phase, Session};
use tokio::sync::broadcast::error::TryRecvError;
use tokio::sync::broadcast::{channel, Receiver, Sender};

struct Client {
    session: Session,
    rx: Receiver<ChatEvent>,
    stream: String,
}

fn connect(manager: &mut SessionManager, tx: &Sender<ChatEvent>) -> Client {
    let (session, first) = manager.on_accept(AcceptOutcome::Connected).unwrap();
    Client { session, rx: tx.subscribe(), stream: first.to_client }
}

fn send(client: &mut Client, tx: &Sender<ChatEvent>, inbound: Inbound, unix_secs: i64) {
    let stamp = Stamp::at(unix_secs).unwrap();
    let reaction = client.session.on_inbound(inbound, &stamp);
    client.stream.push_str(&reaction.to_client);
    if let Some(event) = reaction.to_bus {
        let _ = tx.send(event);
    }
}

fn say(client: &mut Client, tx: &Sender<ChatEvent>, text: &str, unix_secs: i64) {
    send(client, tx, Inbound::from_read(text.len(), String::from(text)), unix_secs);
}

fn drain(client: &mut Client) -> Vec<String> {
    let mut written = Vec::new();
    loop {
        match client.rx.try_recv() {
            Ok(event) => {
                if let Some(text) = client.session.on_bus_event(&event) {
                    client.stream.push_str(text);
                    written.push(String::from(text));
                }
            }
            Err(TryRecvError::Lagged(_)) => {}
            Err(_) => return written,
        }
    }
}

#[test]
fn alice_and_bob() {
    let now = chrono::Utc::now().timestamp();
    let (tx, _keep) = channel::<ChatEvent>(10);
    let mut manager = SessionManager::new();

    let mut alice = connect(&mut manager, &tx);
    say(&mut alice, &tx, "alice\r\n", now);
    let mut bob = connect(&mut manager, &tx);
    say(&mut bob, &tx, "bob\r\n", now);
    drain(&mut alice);
    drain(&mut bob);

    say(&mut alice, &tx, "hello\r\n", now);
    let to_bob = drain(&mut bob);
    let to_alice = drain(&mut alice);

    assert_eq!(to_bob.len(), 1);
    let heard = &to_bob[0];
    assert_eq!(heard.len(), "(HH:MM:SS) alice: hello\r\n".len());
    assert!(heard.starts_with('('));
    assert!(has_clock_shape(&heard[1..9]));
    assert_eq!(&heard[9..], ") alice: hello\r\n");
    assert!(bob.stream.ends_with(heard.as_str()));
    assert!(to_alice.is_empty());
    assert!(!alice.stream.contains("alice: hello"));

    send(&mut bob, &tx, Inbound::Closed, now);
    assert_eq!(bob.session.phase(), Phase::Terminated);
    let to_alice = drain(&mut alice);
    assert_eq!(to_alice.len(), 1);
    let farewell = &to_alice[0];
    assert!(farewell.starts_with("bob has disconnected ("));
    assert!(farewell.ends_with(")\r\n"));
    let date = &farewell["bob has disconnected (".len()..farewell.len() - ")\r\n".len()];
    assert!(has_calendar_shape(date));
    assert!(alice.stream.ends_with(farewell.as_str()));
}

#[test]
fn alice_and_bob_at_a_known_instant() {
    let at = 1_700_000_000;
    let (tx, _keep) = channel::<ChatEvent>(10);
    let mut manager = SessionManager::new();
    let mut alice = connect(&mut manager, &tx);
    say(&mut alice, &tx, "alice\r\n", at);
    let mut bob = connect(&mut manager, &tx);
    say(&mut bob, &tx, "bob\r\n", at);
    assert_eq!(
        drain(&mut alice),
        vec![String::from("bob has connected to the chat! (Tue Nov 14 23:13:20 2023)\r\n")]
    );
    assert!(drain(&mut bob).is_empty());

    say(&mut alice, &tx, "hello\r\n", at + 1);
    assert_eq!(drain(&mut bob), vec![String::from("(23:13:21) alice: hello\r\n")]);
    assert!(drain(&mut alice).is_empty());

    send(&mut bob, &tx, Inbound::Closed, at + 2);
    assert_eq!(
        drain(&mut alice),
        vec![String::from("bob has disconnected (Tue Nov 14 23:13:22 2023)\r\n")]
    );
    assert_eq!(
        alice.stream,
        "Insert username: \r\nWelcome to our house chat alice!\r\n\r\nYou can now type any message.\r\nPress Enter and it will be sent to the other people connected!\r\n\r\nbob has connected to the chat! (Tue Nov 14 23:13:20 2023)\r\nbob has disconnected (Tue Nov 14 23:13:22 2023)\r\n"
    );
}

#[test]
fn nobody_hears_itself() {
    let at = 1_700_000_000;
    let (tx, _keep) = channel::<ChatEvent>(10);
    let mut manager = SessionManager::new();
    let mut alice = connect(&mut manager, &tx);
    say(&mut alice, &tx, "alice\r\n", at);
    for text in ["one\r\n", "two\r\n", "three\r\n"] {
        say(&mut alice, &tx, text, at);
    }
    assert!(drain(&mut alice).is_empty());
    send(&mut alice, &tx, Inbound::Closed, at);
    assert!(drain(&mut alice).is_empty());
    assert!(!alice.stream.contains("alice:"));
    assert!(!alice.stream.contains("alice has"));
}

#[test]
fn everybody_hears_everybody_else_in_order() {
    let at = 1_700_000_000;
    let (tx, _keep) = channel::<ChatEvent>(16);
    let mut manager = SessionManager::new();
    let mut alice = connect(&mut manager, &tx);
    let mut bob = connect(&mut manager, &tx);
    let mut carol = connect(&mut manager, &tx);
    say(&mut alice, &tx, "alice\r\n", at);
    say(&mut bob, &tx, "bob\r\n", at);
    say(&mut carol, &tx, "carol\r\n", at);
    drain(&mut alice);
    drain(&mut bob);
    drain(&mut carol);

    say(&mut alice, &tx, "a1\r\n", at);
    say(&mut bob, &tx, "b1\r\n", at);
    say(&mut alice, &tx, "a2\r\n", at);
    say(&mut carol, &tx, "c1\r\n", at);
    say(&mut bob, &tx, "b2\r\n", at);

    assert_eq!(
        drain(&mut alice),
        vec![
            String::from("(23:13:20) bob: b1\r\n"),
            String::from("(23:13:20) carol: c1\r\n"),
            String::from("(23:13:20) bob: b2\r\n"),
        ]
    );
    assert_eq!(
        drain(&mut bob),
        vec![
            String::from("(23:13:20) alice: a1\r\n"),
            String::from("(23:13:20) alice: a2\r\n"),
            String::from("(23:13:20) carol: c1\r\n"),
        ]
    );
    assert_eq!(
        drain(&mut carol),
        vec![
            String::from("(23:13:20) alice: a1\r\n"),
            String::from("(23:13:20) bob: b1\r\n"),
            String::from("(23:13:20) alice: a2\r\n"),
            String::from("(23:13:20) bob: b2\r\n"),
        ]
    );
}

#[test]
fn a_departure_reaches_everybody_else_once() {
    let at = 1_700_000_000;
    let (tx, _keep) = channel::<ChatEvent>(16);
    let mut manager = SessionManager::new();
    let mut alice = connect(&mut manager, &tx);
    let mut bob = connect(&mut manager, &tx);
    let mut carol = connect(&mut manager, &tx);
    say(&mut alice, &tx, "alice\r\n", at);
    say(&mut bob, &tx, "bob\r\n", at);
    say(&mut carol, &tx, "carol\r\n", at);
    drain(&mut alice);
    drain(&mut bob);
    drain(&mut carol);

    send(&mut carol, &tx, Inbound::Closed, at);
    send(&mut carol, &tx, Inbound::Closed, at);
    say(&mut carol, &tx, "am I still here?\r\n", at);
    say(&mut alice, &tx, "bye carol\r\n", at);

    let farewell = String::from("carol has disconnected (Tue Nov 14 23:13:20 2023)\r\n");
    assert_eq!(drain(&mut alice), vec![farewell.clone()]);
    assert_eq!(drain(&mut bob), vec![farewell, String::from("(23:13:20) alice: bye carol\r\n")]);
    assert!(drain(&mut carol).is_empty());
}

#[test]
fn a_late_subscriber_sees_nothing_of_the_past() {
    let at = 1_700_000_000;
    let (tx, _keep) = channel::<ChatEvent>(16);
    let mut manager = SessionManager::new();
    let mut alice = connect(&mut manager, &tx);
    say(&mut alice, &tx, "alice\r\n", at);
    say(&mut alice, &tx, "anyone?\r\n", at);
    let mut bob = connect(&mut manager, &tx);
    say(&mut bob, &tx, "bob\r\n", at);
    assert!(drain(&mut bob).is_empty());
    say(&mut alice, &tx, "hi bob\r\n", at);
    assert_eq!(drain(&mut bob), vec![String::from("(23:13:20) alice: hi bob\r\n")]);
}

#[test]
fn what_is_published_during_a_handshake_waits_for_the_relay() {
    let at = 1_700_000_000;
    let (tx, _keep) = channel::<ChatEvent>(16);
    let mut manager = SessionManager::new();
    let mut alice = connect(&mut manager, &tx);
    say(&mut alice, &tx, "alice\r\n", at);
    let mut bob = connect(&mut manager, &tx);
    say(&mut alice, &tx, "early\r\n", at);
    say(&mut bob, &tx, "\r\n", at);
    say(&mut bob, &tx, "bob\r\n", at);
    assert_eq!(drain(&mut bob), vec![String::from("(23:13:20) alice: early\r\n")]);
}

#[test]
fn a_lagging_subscriber_loses_the_oldest_and_keeps_the_order() {
    let at = 1_700_000_000;
    let (tx, _keep) = channel::<ChatEvent>(4);
    let mut manager = SessionManager::new();
    let mut alice = connect(&mut manager, &tx);
    let mut bob = connect(&mut manager, &tx);
    say(&mut alice, &tx, "alice\r\n", at);
    say(&mut bob, &tx, "bob\r\n", at);
    drain(&mut alice);
    drain(&mut bob);
    for text in ["1\r\n", "2\r\n", "3\r\n", "4\r\n", "5\r\n", "6\r\n"] {
        say(&mut alice, &tx, text, at);
    }
    assert_eq!(
        drain(&mut bob),
        vec![
            String::from("(23:13:20) alice: 3\r\n"),
            String::from("(23:13:20) alice: 4\r\n"),
            String::from("(23:13:20) alice: 5\r\n"),
            String::from("(23:13:20) alice: 6\r\n"),
        ]
    );
}
