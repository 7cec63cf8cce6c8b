//! One client's session: first the handshake that gives it a name, then the
//! relay of its lines to the bus and of the bus to it.
//!
//! A session never waits and never touches a socket. The program around it
//! reads a line or takes an event off the bus, hands it over, and does what
//! the answer says: write this text to the client, publish that event.

use vstd::prelude::*;
use crate::clock::{Stamp, StampView};
use crate::identity::ConnectionIdentity;
use crate::line::{
    is_line_terminator,
    is_terminator_char,
    spec_is_blank,
    spec_strip_terminators,
    strip_terminators,
};
use crate::message::{
    chat_line,
    departure_announcement,
    event_view,
    join_announcement,
    spec_chat_line,
    spec_departure_announcement,
    spec_join_announcement,
    spec_usage_hint,
    spec_username_prompt,
    spec_welcome,
    usage_hint,
    username_prompt,
    welcome,
    ChatEvent,
    ChatEventView,
};

verus! {

/// Where a session stands.
#[derive(Clone, Copy, Debug, PartialEq, Eq, Structural)]
pub enum Phase {
    /// The client has no name yet and is being asked for one.
    Handshake,
    /// The client has a name; its lines go to the bus and the bus comes to it.
    Active,
    /// The connection is over. Nothing more comes from this session.
    Terminated,
}

/// Why a read from the client failed.
#[derive(Clone, Copy, Debug, PartialEq, Eq, Structural)]
pub enum ReadFailure {
    /// The peer reset the connection.
    ConnectionReset,
    /// The connection was aborted.
    ConnectionAborted,
    /// Anything else.
    Other,
}

impl ReadFailure {
    /// The failures that mean the peer is gone, as a clean close does.
    pub open spec fn spec_is_reset_class(self) -> bool {
        self is ConnectionReset || self is ConnectionAborted
    }

    /// Tells whether the failure means the peer is gone.
    pub fn is_reset_class(&self) -> (yes: bool)
        ensures
            yes == self.spec_is_reset_class(),
    {
        match self {
            ReadFailure::ConnectionReset => true,
            ReadFailure::ConnectionAborted => true,
            ReadFailure::Other => false,
        }
    }
}

/// What one attempt to read a line from the client gave.
#[derive(Clone, Debug, PartialEq, Eq)]
pub enum Inbound {
    /// A line, as read: its terminator is still on it.
    Line(String),
    /// The read gave no bytes: the peer has closed the connection.
    Closed,
    /// The read failed.
    Failed(ReadFailure),
}

/// An inbound outcome as contracts see it.
pub enum InboundView {
    Line(Seq<char>),
    Closed,
    Failed(ReadFailure),
}

impl View for Inbound {
    type V = InboundView;

    open spec fn view(&self) -> InboundView {
        match self {
            Inbound::Line(text) => InboundView::Line(text@),
            Inbound::Closed => InboundView::Closed,
            Inbound::Failed(failure) => InboundView::Failed(*failure),
        }
    }
}

impl Inbound {
    /// The outcome of a read that reported `count` bytes and left `buffer`:
    /// no bytes means the peer has closed, whatever the buffer still holds.
    pub open spec fn spec_from_read(count: usize, buffer: Seq<char>) -> InboundView {
        if count == 0 {
            InboundView::Closed
        } else {
            InboundView::Line(buffer)
        }
    }

    /// The outcome of a read that reported `count` bytes and left `buffer`.
    pub fn from_read(count: usize, buffer: String) -> (inbound: Inbound)
        ensures
            inbound@ == Self::spec_from_read(count, buffer@),
    {
        if count == 0 {
            Inbound::Closed
        } else {
            Inbound::Line(buffer)
        }
    }
}

/// What the program around the session has to do after a step.
#[derive(Clone, Debug, PartialEq, Eq)]
pub struct Reaction {
    /// Text to write to this session's own client; empty if there is none.
    pub to_client: String,
    /// The event to publish on the bus, if there is one.
    pub to_bus: Option<ChatEvent>,
}

/// A reaction as contracts see it.
pub struct ReactionView {
    pub to_client: Seq<char>,
    pub to_bus: Option<ChatEventView>,
}

impl View for Reaction {
    type V = ReactionView;

    open spec fn view(&self) -> ReactionView {
        ReactionView { to_client: self.to_client@, to_bus: event_view(self.to_bus) }
    }
}

/// Nothing to write, nothing to publish.
pub open spec fn spec_silence() -> ReactionView {
    ReactionView { to_client: Seq::empty(), to_bus: None }
}

/// Only a text for the client.
pub open spec fn spec_tell(text: Seq<char>) -> ReactionView {
    ReactionView { to_client: text, to_bus: None }
}

/// Only an event for the bus.
pub open spec fn spec_publish(text: Seq<char>, origin: ConnectionIdentity) -> ReactionView {
    ReactionView { to_client: Seq::empty(), to_bus: Some(ChatEventView { text, origin }) }
}

/// The state of one session.
#[derive(Clone, Debug, PartialEq, Eq)]
pub struct Session {
    identity: ConnectionIdentity,
    phase: Phase,
    username: String,
}

/// A session as contracts see it.
pub struct SessionView {
    pub identity: ConnectionIdentity,
    pub phase: Phase,
    pub username: Seq<char>,
}

impl View for Session {
    type V = SessionView;

    closed spec fn view(&self) -> SessionView {
        SessionView { identity: self.identity, phase: self.phase, username: self.username@ }
    }
}

impl SessionView {
    /// A session has no name during the handshake. After it, the name is not
    /// empty and does not end in a line terminator.
    pub open spec fn wf(self) -> bool {
        if self.phase is Handshake {
            self.username.len() == 0
        } else {
            self.username.len() > 0 && !is_line_terminator(self.username.last())
        }
    }

    /// A session that has just been accepted.
    pub open spec fn opened(identity: ConnectionIdentity) -> SessionView {
        SessionView { identity, phase: Phase::Handshake, username: Seq::empty() }
    }

    /// The session in another phase.
    pub open spec fn in_phase(self, phase: Phase) -> SessionView {
        SessionView { phase, ..self }
    }
}

/// The handshake. A line that holds more than terminators gives the session
/// its name: the client is greeted and told how to use the chat, everybody
/// else is told that it has joined, and the relay begins. Anything else (a
/// blank line, a closed or failed read) leaves the session as it is and asks
/// again.
pub open spec fn spec_handshake(s: SessionView, inbound: InboundView, stamp: StampView) -> (
    SessionView,
    ReactionView,
) {
    match inbound {
        InboundView::Line(text) => {
            if spec_is_blank(text) {
                (s, spec_tell(spec_username_prompt()))
            } else {
                let username = spec_strip_terminators(text);
                (
                    SessionView { identity: s.identity, phase: Phase::Active, username },
                    ReactionView {
                        to_client: spec_welcome(username) + spec_usage_hint(),
                        to_bus: Some(
                            ChatEventView {
                                text: spec_join_announcement(username, stamp.calendar),
                                origin: s.identity,
                            },
                        ),
                    },
                )
            }
        },
        _ => (s, spec_tell(spec_username_prompt())),
    }
}

/// The relay of the client's own lines. A line is published in its broadcast
/// form, stamped with the time of day. When the peer has closed the
/// connection, or a failure says it is gone, the departure is announced and
/// the session ends. On any other failure the session ends without a word.
pub open spec fn spec_relay(s: SessionView, inbound: InboundView, stamp: StampView) -> (
    SessionView,
    ReactionView,
) {
    match inbound {
        InboundView::Line(text) => (
            s,
            spec_publish(spec_chat_line(stamp.clock, s.username, text), s.identity),
        ),
        InboundView::Closed => (
            s.in_phase(Phase::Terminated),
            spec_publish(spec_departure_announcement(s.username, stamp.calendar), s.identity),
        ),
        InboundView::Failed(failure) => {
            if failure.spec_is_reset_class() {
                (
                    s.in_phase(Phase::Terminated),
                    spec_publish(
                        spec_departure_announcement(s.username, stamp.calendar),
                        s.identity,
                    ),
                )
            } else {
                (s.in_phase(Phase::Terminated), spec_silence())
            }
        },
    }
}

/// What a session does with the outcome of one read: the next state and the
/// reaction. A session that has ended stays as it is and says nothing.
pub open spec fn spec_on_inbound(s: SessionView, inbound: InboundView, stamp: StampView) -> (
    SessionView,
    ReactionView,
) {
    match s.phase {
        Phase::Handshake => spec_handshake(s, inbound, stamp),
        Phase::Active => spec_relay(s, inbound, stamp),
        Phase::Terminated => (s, spec_silence()),
    }
}

/// What a session writes to its client for an event off the bus: the event's
/// text as it is, unless the event is the session's own or the session is not
/// relaying.
pub open spec fn spec_on_bus_event(s: SessionView, event: ChatEventView) -> Option<Seq<char>> {
    if s.phase is Active && event.origin != s.identity {
        Some(event.text)
    } else {
        None
    }
}

/// The view of a borrowed text that may be absent.
pub open spec fn borrowed_text_view(text: Option<&str>) -> Option<Seq<char>> {
    match text {
        Some(t) => Some(t@),
        None => None,
    }
}

impl Session {
    /// See `SessionView::wf`.
    pub open spec fn wf(&self) -> bool {
        self@.wf()
    }

    /// The session for a connection that has just been accepted, and the
    /// first thing to tell its client: the prompt for a username.
    pub fn open(identity: ConnectionIdentity) -> (opened: (Session, Reaction))
        ensures
            opened.0@ == SessionView::opened(identity),
            opened.0.wf(),
            opened.1@ == spec_tell(spec_username_prompt()),
    {
        let session = Session { identity, phase: Phase::Handshake, username: String::new() };
        let reaction = Reaction { to_client: username_prompt(), to_bus: None };
        (session, reaction)
    }

    /// The session's identity on the bus.
    pub fn identity(&self) -> (identity: ConnectionIdentity)
        ensures
            identity == self@.identity,
    {
        self.identity
    }

    /// Where the session stands.
    pub fn phase(&self) -> (phase: Phase)
        ensures
            phase == self@.phase,
    {
        self.phase
    }

    /// The client's name; empty as long as the handshake lasts.
    pub fn username(&self) -> (username: &str)
        ensures
            username@ == self@.username,
    {
        self.username.as_str()
    }

    /// Tells whether the session is as `wf` says: without a name in its
    /// handshake, with a clean one after it. Every session that `open` gave
    /// and `on_inbound` moved on is.
    pub fn is_well_formed(&self) -> (yes: bool)
        ensures
            yes == self.wf(),
    {
        let length: usize = self.username.as_str().unicode_len();
        match self.phase {
            Phase::Handshake => length == 0,
            _ => length > 0 && !is_terminator_char(self.username.as_str().get_char(length - 1)),
        }
    }

    /// Tells whether the session has ended.
    pub fn is_terminated(&self) -> (yes: bool)
        ensures
            yes == (self@.phase is Terminated),
    {
        match self.phase {
            Phase::Terminated => true,
            _ => false,
        }
    }

    /// Tells whether the session is relaying.
    pub fn is_active(&self) -> (yes: bool)
        ensures
            yes == (self@.phase is Active),
    {
        match self.phase {
            Phase::Active => true,
            _ => false,
        }
    }

    /// Takes the outcome of one read from the client, at the time that
    /// `stamp` shows, and says what to do about it.
    pub fn on_inbound(&mut self, inbound: Inbound, stamp: &Stamp) -> (reaction: Reaction)
        requires
            old(self).wf(),
        ensures
            final(self).wf(),
            final(self)@ == spec_on_inbound(old(self)@, inbound@, stamp@).0,
            reaction@ == spec_on_inbound(old(self)@, inbound@, stamp@).1,
    {
        match self.phase {
            Phase::Handshake => self.handshake(inbound, stamp),
            Phase::Active => self.relay(inbound, stamp),
            Phase::Terminated => Reaction { to_client: String::new(), to_bus: None },
        }
    }

    /// One step of the handshake.
    fn handshake(&mut self, inbound: Inbound, stamp: &Stamp) -> (reaction: Reaction)
        requires
            old(self).wf(),
            old(self)@.phase is Handshake,
        ensures
            final(self).wf(),
            final(self)@ == spec_handshake(old(self)@, inbound@, stamp@).0,
            reaction@ == spec_handshake(old(self)@, inbound@, stamp@).1,
    {
        match inbound {
            Inbound::Line(text) => {
                let username = strip_terminators(text.as_str());
                if username.as_str().is_empty() {
                    Reaction { to_client: username_prompt(), to_bus: None }
                } else {
                    proof {
                        crate::line::lemma_strip_terminators_is_longest_clean_prefix(text@);
                    }
                    let mut greeting = welcome(username.as_str());
                    greeting.append(usage_hint().as_str());
                    let announcement = join_announcement(username.as_str(), stamp.calendar());
                    self.username = username;
                    self.phase = Phase::Active;
                    Reaction {
                        to_client: greeting,
                        to_bus: Some(ChatEvent::new(announcement, self.identity)),
                    }
                }
            },
            _ => Reaction { to_client: username_prompt(), to_bus: None },
        }
    }

    /// One step of the relay of the client's own lines.
    fn relay(&mut self, inbound: Inbound, stamp: &Stamp) -> (reaction: Reaction)
        requires
            old(self).wf(),
            old(self)@.phase is Active,
        ensures
            final(self).wf(),
            final(self)@ == spec_relay(old(self)@, inbound@, stamp@).0,
            reaction@ == spec_relay(old(self)@, inbound@, stamp@).1,
    {
        match inbound {
            Inbound::Line(text) => {
                let broadcast = chat_line(stamp.clock(), self.username.as_str(), text.as_str());
                Reaction {
                    to_client: String::new(),
                    to_bus: Some(ChatEvent::new(broadcast, self.identity)),
                }
            },
            Inbound::Closed => self.depart(stamp),
            Inbound::Failed(failure) => {
                if failure.is_reset_class() {
                    self.depart(stamp)
                } else {
                    self.phase = Phase::Terminated;
                    Reaction { to_client: String::new(), to_bus: None }
                }
            },
        }
    }

    /// Ends the session and announces the departure.
    fn depart(&mut self, stamp: &Stamp) -> (reaction: Reaction)
        requires
            old(self).wf(),
            old(self)@.phase is Active,
        ensures
            final(self).wf(),
            final(self)@ == old(self)@.in_phase(Phase::Terminated),
            reaction@ == spec_publish(
                spec_departure_announcement(old(self)@.username, stamp@.calendar),
                old(self)@.identity,
            ),
    {
        let announcement = departure_announcement(self.username.as_str(), stamp.calendar());
        self.phase = Phase::Terminated;
        Reaction {
            to_client: String::new(),
            to_bus: Some(ChatEvent::new(announcement, self.identity)),
        }
    }

    /// Takes one event off the bus and says what to write to the client:
    /// the event's text, or nothing where the event is the session's own or
    /// the session is not relaying. The session stays as it is.
    pub fn on_bus_event<'a>(&self, event: &'a ChatEvent) -> (text: Option<&'a str>)
        ensures
            borrowed_text_view(text) == spec_on_bus_event(self@, event@),
    {
        match self.phase {
            Phase::Active => {
                if event.origin().same_as(&self.identity) {
                    None
                } else {
                    Some(event.text())
                }
            },
            _ => None,
        }
    }
}

/// What every step of a session keeps: its identity, its well-formedness,
/// and, once it has one, its name. Whatever it gives to the bus carries its
/// own identity. It never goes back to an earlier phase.
pub proof fn lemma_on_inbound_keeps(s: SessionView, inbound: InboundView, stamp: StampView)
    requires
        s.wf(),
    ensures
        ({
            let (next, reaction) = spec_on_inbound(s, inbound, stamp);
            &&& next.wf()
            &&& next.identity == s.identity
            &&& (reaction.to_bus matches Some(event) ==> event.origin == s.identity)
            &&& (!(s.phase is Handshake) ==> next.username == s.username && !(next.phase
                is Handshake))
            &&& (s.phase is Terminated ==> next == s && reaction == spec_silence())
            &&& (next.phase is Terminated ==> !(s.phase is Handshake))
        }),
{
    if s.phase is Handshake {
        match inbound {
            InboundView::Line(text) => {
                crate::line::lemma_strip_terminators_is_longest_clean_prefix(text);
            },
            _ => {},
        }
    }
}

/// A sender never sees its own message: whatever a session gives to the bus,
/// the same session, in whatever state it is by then, writes nothing for it
/// when the bus hands it back.
pub proof fn law_own_event_is_never_written(
    sender: SessionView,
    inbound: InboundView,
    stamp: StampView,
    receiver: SessionView,
)
    requires
        receiver.identity == sender.identity,
    ensures
        spec_on_inbound(sender, inbound, stamp).1.to_bus matches Some(event) ==> spec_on_bus_event(
            receiver,
            event,
        ) is None,
{
}

/// Everybody else sees it as it is: a session that is relaying writes the
/// text of any event of another origin, unchanged.
pub proof fn law_foreign_event_is_written_verbatim(receiver: SessionView, event: ChatEventView)
    requires
        receiver.phase is Active,
        event.origin != receiver.identity,
    ensures
        spec_on_bus_event(receiver, event) == Some(event.text),
{
}

/// One read together with the time at which it was taken.
pub struct TimedInbound {
    pub inbound: InboundView,
    pub stamp: StampView,
}

/// The session after it has taken all of `reads`, one after the other.
pub open spec fn spec_session_after(s: SessionView, reads: Seq<TimedInbound>) -> SessionView
    decreases reads.len(),
{
    if reads.len() == 0 {
        s
    } else {
        spec_on_inbound(
            spec_session_after(s, reads.drop_last()),
            reads.last().inbound,
            reads.last().stamp,
        ).0
    }
}

/// The reactions of the session to each of `reads`, in their order.
pub open spec fn spec_reactions_to(s: SessionView, reads: Seq<TimedInbound>) -> Seq<ReactionView>
    decreases reads.len(),
{
    if reads.len() == 0 {
        Seq::empty()
    } else {
        spec_reactions_to(s, reads.drop_last()).push(
            spec_on_inbound(
                spec_session_after(s, reads.drop_last()),
                reads.last().inbound,
                reads.last().stamp,
            ).1,
        )
    }
}

/// A read that gives the handshake no name: a blank line, a closed
/// connection, a failure.
pub open spec fn gives_no_name(inbound: InboundView) -> bool {
    match inbound {
        InboundView::Line(text) => spec_is_blank(text),
        _ => true,
    }
}

/// The handshake does not give up and does not give in: as long as the
/// client sends nothing but blank lines, or nothing at all, the session stays
/// in its handshake without a name, answers every read with the prompt and
/// nothing else, and tells the bus nothing.
pub proof fn law_handshake_asks_again(identity: ConnectionIdentity, reads: Seq<TimedInbound>)
    requires
        forall|i: int| 0 <= i < reads.len() ==> gives_no_name(#[trigger] reads[i].inbound),
    ensures
        spec_session_after(SessionView::opened(identity), reads) == SessionView::opened(identity),
        spec_reactions_to(SessionView::opened(identity), reads).len() == reads.len(),
        forall|i: int|
            0 <= i < reads.len() ==> #[trigger] spec_reactions_to(
                SessionView::opened(identity),
                reads,
            )[i] == spec_tell(spec_username_prompt()),
    decreases reads.len(),
{
    if reads.len() > 0 {
        law_handshake_asks_again(identity, reads.drop_last());
    }
}

/// The handshake ends with the first line that holds a name: after any
/// number of reads that gave none, such a line makes the session relay under
/// the line's text without its terminators, greets the client, and announces
/// it to the others.
pub proof fn law_handshake_takes_first_name(
    identity: ConnectionIdentity,
    reads: Seq<TimedInbound>,
    line: Seq<char>,
    stamp: StampView,
)
    requires
        forall|i: int| 0 <= i < reads.len() ==> gives_no_name(#[trigger] reads[i].inbound),
        !spec_is_blank(line),
    ensures
        ({
            let waiting = spec_session_after(SessionView::opened(identity), reads);
            let (joined, reaction) = spec_on_inbound(waiting, InboundView::Line(line), stamp);
            &&& joined == SessionView {
                identity,
                phase: Phase::Active,
                username: spec_strip_terminators(line),
            }
            &&& joined.wf()
            &&& reaction.to_client == spec_welcome(spec_strip_terminators(line))
                + spec_usage_hint()
            &&& reaction.to_bus == Some(
                ChatEventView {
                    text: spec_join_announcement(spec_strip_terminators(line), stamp.calendar),
                    origin: identity,
                },
            )
        }),
{
    law_handshake_asks_again(identity, reads);
    crate::line::lemma_strip_terminators_is_longest_clean_prefix(line);
}

/// A session that has ended is not heard of again: whatever it is handed
/// from then on, it stays ended and gives nothing, neither to its client nor
/// to the bus.
pub proof fn law_ended_session_stays_silent(s: SessionView, reads: Seq<TimedInbound>)
    requires
        s.phase is Terminated,
    ensures
        spec_session_after(s, reads) == s,
        spec_reactions_to(s, reads).len() == reads.len(),
        forall|i: int|
            0 <= i < reads.len() ==> #[trigger] spec_reactions_to(s, reads)[i] == spec_silence(),
    decreases reads.len(),
{
    if reads.len() > 0 {
        law_ended_session_stays_silent(s, reads.drop_last());
    }
}

/// A clean close is announced once: the session that is relaying gives the
/// bus exactly the departure announcement, with its name and the date, and
/// ends; so it does when a failure says the peer is gone. After that it gives
/// nothing more.
pub proof fn law_departure_is_announced_once(
    s: SessionView,
    inbound: InboundView,
    stamp: StampView,
    reads: Seq<TimedInbound>,
)
    requires
        s.phase is Active,
        inbound is Closed || (inbound matches InboundView::Failed(failure)
            && failure.spec_is_reset_class()),
    ensures
        ({
            let (left, reaction) = spec_on_inbound(s, inbound, stamp);
            &&& left == s.in_phase(Phase::Terminated)
            &&& reaction == spec_publish(
                spec_departure_announcement(s.username, stamp.calendar),
                s.identity,
            )
            &&& spec_session_after(left, reads) == left
            &&& forall|i: int|
                0 <= i < reads.len() ==> #[trigger] spec_reactions_to(left, reads)[i]
                    == spec_silence()
        }),
{
    law_ended_session_stays_silent(spec_on_inbound(s, inbound, stamp).0, reads);
}

} // verus!
