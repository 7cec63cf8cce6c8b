//! The accept loop's side of the relay: every connection that comes in gets a
//! session of its own, under an identity that no other session has.

use vstd::prelude::*;
use crate::identity::ConnectionIdentity;
use crate::message::spec_username_prompt;
use crate::session::{spec_tell, Reaction, ReactionView, Session, SessionView};

verus! {

/// What one attempt to accept a connection gave.
#[derive(Clone, Copy, Debug, PartialEq, Eq, Structural)]
pub enum AcceptOutcome {
    /// A client has connected.
    Connected,
    /// The attempt failed. The loop goes on.
    Failed,
}

/// Hands out identities, each one once.
#[derive(Debug)]
pub struct SessionManager {
    next_token: u64,
}

/// A manager as contracts see it: the number of identities given out so far.
/// The identities given out are the tokens below that number.
pub struct SessionManagerView {
    pub issued: nat,
}

impl View for SessionManager {
    type V = SessionManagerView;

    closed spec fn view(&self) -> SessionManagerView {
        SessionManagerView { issued: self.next_token as nat }
    }
}

impl SessionManagerView {
    /// Tells whether `identity` has been given to a session.
    pub open spec fn has_issued(self, identity: ConnectionIdentity) -> bool {
        identity.token < self.issued
    }

    /// Tells whether there is an identity left to give out.
    pub open spec fn can_admit(self) -> bool {
        self.issued < u64::MAX
    }
}

/// What the manager does with the outcome of one accept: the next state and,
/// where a client has connected and an identity is left for it, the identity
/// of its session. A failed accept changes nothing.
pub open spec fn spec_on_accept(m: SessionManagerView, outcome: AcceptOutcome) -> (
    SessionManagerView,
    Option<ConnectionIdentity>,
) {
    if outcome is Connected && m.can_admit() {
        (
            SessionManagerView { issued: m.issued + 1 },
            Some(ConnectionIdentity { token: m.issued as u64 }),
        )
    } else {
        (m, None)
    }
}

/// The view of an admitted session and its first reaction, if there is one.
pub open spec fn admitted_view(admitted: Option<(Session, Reaction)>) -> Option<
    (SessionView, ReactionView),
> {
    match admitted {
        Some(pair) => Some((pair.0@, pair.1@)),
        None => None,
    }
}

/// What the manager hands to the program for the outcome of one accept: a
/// new session in its handshake and the prompt to write first, or nothing.
pub open spec fn spec_admitted(m: SessionManagerView, outcome: AcceptOutcome) -> Option<
    (SessionView, ReactionView),
> {
    match spec_on_accept(m, outcome).1 {
        Some(identity) => Some((SessionView::opened(identity), spec_tell(spec_username_prompt()))),
        None => None,
    }
}

impl SessionManager {
    /// A manager that has given out no identity yet.
    pub fn new() -> (manager: SessionManager)
        ensures
            manager@.issued == 0,
    {
        SessionManager { next_token: 0 }
    }

    /// The number of identities given out so far.
    pub fn issued(&self) -> (count: u64)
        ensures
            count == self@.issued,
    {
        self.next_token
    }

    /// Takes the outcome of one accept. For a client that has connected it
    /// gives the new session, under an identity that no earlier session got,
    /// and the prompt to write to the client. For a failed accept it gives
    /// nothing and stays as it is; so it does when the identities have run
    /// out.
    pub fn on_accept(&mut self, outcome: AcceptOutcome) -> (admitted: Option<(Session, Reaction)>)
        ensures
            final(self)@ == spec_on_accept(old(self)@, outcome).0,
            admitted_view(admitted) == spec_admitted(old(self)@, outcome),
            admitted matches Some(pair) ==> pair.0.wf() && !old(self)@.has_issued(pair.0@.identity)
                && final(self)@.has_issued(pair.0@.identity),
            forall|identity: ConnectionIdentity|
                old(self)@.has_issued(identity) ==> final(self)@.has_issued(identity),
    {
        match outcome {
            AcceptOutcome::Connected => {
                if self.next_token < u64::MAX {
                    let identity = ConnectionIdentity::from_token(self.next_token);
                    self.next_token = self.next_token + 1;
                    Some(Session::open(identity))
                } else {
                    None
                }
            },
            AcceptOutcome::Failed => None,
        }
    }
}

/// The manager after it has taken all of `outcomes`, one after the other.
pub open spec fn spec_manager_after(
    m: SessionManagerView,
    outcomes: Seq<AcceptOutcome>,
) -> SessionManagerView
    decreases outcomes.len(),
{
    if outcomes.len() == 0 {
        m
    } else {
        spec_on_accept(spec_manager_after(m, outcomes.drop_last()), outcomes.last()).0
    }
}

/// What has been given out stays given out.
pub proof fn lemma_issued_only_grows(m: SessionManagerView, outcomes: Seq<AcceptOutcome>)
    ensures
        m.issued <= spec_manager_after(m, outcomes).issued,
    decreases outcomes.len(),
{
    if outcomes.len() > 0 {
        lemma_issued_only_grows(m, outcomes.drop_last());
    }
}

/// No two sessions share an identity: whatever the manager is handed between
/// two accepts, the sessions it admits at the two get different identities.
/// A failed accept in between changes nothing.
pub proof fn law_identities_are_never_reused(
    m: SessionManagerView,
    first: AcceptOutcome,
    between: Seq<AcceptOutcome>,
    second: AcceptOutcome,
)
    ensures
        ({
            let (after_first, earlier) = spec_on_accept(m, first);
            let (_, later) = spec_on_accept(spec_manager_after(after_first, between), second);
            earlier is Some && later is Some ==> earlier != later
        }),
        spec_on_accept(m, AcceptOutcome::Failed) == (m, None::<ConnectionIdentity>),
{
    lemma_issued_only_grows(spec_on_accept(m, first).0, between);
}

} // verus!
