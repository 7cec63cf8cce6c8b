//! The texts of the relay: what a client is told directly, and what goes
//! over the bus to everybody else.

use vstd::prelude::*;
use crate::identity::ConnectionIdentity;

verus! {

/// A finished line of display text together with the identity of the session
/// that published it. Subscribers write the text as it is. An event does not
/// change once it is made.
#[derive(Clone, Debug, PartialEq, Eq)]
pub struct ChatEvent {
    text: String,
    origin: ConnectionIdentity,
}

/// A chat event as contracts see it.
pub struct ChatEventView {
    pub text: Seq<char>,
    pub origin: ConnectionIdentity,
}

impl View for ChatEvent {
    type V = ChatEventView;

    closed spec fn view(&self) -> ChatEventView {
        ChatEventView { text: self.text@, origin: self.origin }
    }
}

/// The view of a text that may be absent.
pub open spec fn text_view(text: Option<String>) -> Option<Seq<char>> {
    match text {
        Some(t) => Some(t@),
        None => None,
    }
}

/// The view of an event that may be absent.
pub open spec fn event_view(event: Option<ChatEvent>) -> Option<ChatEventView> {
    match event {
        Some(e) => Some(e@),
        None => None,
    }
}

/// What a client is asked before it has a name.
pub open spec fn spec_username_prompt() -> Seq<char> {
    "Insert username: "@
}

/// The greeting for a client that has just given its name.
pub open spec fn spec_welcome(username: Seq<char>) -> Seq<char> {
    "\r\nWelcome to our house chat "@ + username + "!\r\n"@
}

/// The few words on how to use the chat that follow the greeting.
pub open spec fn spec_usage_hint() -> Seq<char> {
    "\r\nYou can now type any message.\r\nPress Enter and it will be sent to the other people connected!\r\n\r\n"@
}

/// The announcement that `username` has joined, stamped with the long date.
pub open spec fn spec_join_announcement(username: Seq<char>, calendar: Seq<char>) -> Seq<char> {
    username + " has connected to the chat! ("@ + calendar + ")\r\n"@
}

/// One chat line as the others see it: the short time in brackets, the
/// sender's name, and the line as it was read, terminator and all.
pub open spec fn spec_chat_line(clock: Seq<char>, username: Seq<char>, line: Seq<char>) -> Seq<
    char,
> {
    "("@ + clock + ") "@ + username + ": "@ + line
}

/// The announcement that `username` has left, stamped with the long date.
pub open spec fn spec_departure_announcement(username: Seq<char>, calendar: Seq<char>) -> Seq<
    char,
> {
    username + " has disconnected ("@ + calendar + ")\r\n"@
}

/// The prompt for a username.
pub fn username_prompt() -> (text: String)
    ensures
        text@ == spec_username_prompt(),
{
    String::from_str("Insert username: ")
}

/// The greeting for `username`.
pub fn welcome(username: &str) -> (text: String)
    ensures
        text@ == spec_welcome(username@),
{
    let mut text = String::from_str("\r\nWelcome to our house chat ");
    text.append(username);
    text.append("!\r\n");
    text
}

/// The usage hint.
pub fn usage_hint() -> (text: String)
    ensures
        text@ == spec_usage_hint(),
{
    String::from_str(
        "\r\nYou can now type any message.\r\nPress Enter and it will be sent to the other people connected!\r\n\r\n",
    )
}

/// The join announcement for `username` at the date `calendar`.
pub fn join_announcement(username: &str, calendar: &str) -> (text: String)
    ensures
        text@ == spec_join_announcement(username@, calendar@),
{
    let mut text = String::from_str(username);
    text.append(" has connected to the chat! (");
    text.append(calendar);
    text.append(")\r\n");
    text
}

/// The broadcast form of `line`, sent by `username` at the time `clock`.
pub fn chat_line(clock: &str, username: &str, line: &str) -> (text: String)
    ensures
        text@ == spec_chat_line(clock@, username@, line@),
{
    let mut text = String::from_str("(");
    text.append(clock);
    text.append(") ");
    text.append(username);
    text.append(": ");
    text.append(line);
    text
}

/// The departure announcement for `username` at the date `calendar`.
pub fn departure_announcement(username: &str, calendar: &str) -> (text: String)
    ensures
        text@ == spec_departure_announcement(username@, calendar@),
{
    let mut text = String::from_str(username);
    text.append(" has disconnected (");
    text.append(calendar);
    text.append(")\r\n");
    text
}

impl ChatEvent {
    /// The event that carries `text` from `origin`.
    pub fn new(text: String, origin: ConnectionIdentity) -> (event: ChatEvent)
        ensures
            event@ == (ChatEventView { text: text@, origin }),
    {
        ChatEvent { text, origin }
    }

    /// The text to display.
    pub fn text(&self) -> (text: &str)
        ensures
            text@ == self@.text,
    {
        self.text.as_str()
    }

    /// The session the event came from.
    pub fn origin(&self) -> (origin: ConnectionIdentity)
        ensures
            origin == self@.origin,
    {
        self.origin
    }
}

} // verus!
