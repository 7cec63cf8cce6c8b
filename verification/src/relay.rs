//! The relay as a whole: every session together with the bus between them.
//!
//! This is a model, not code that runs. It says what the program around the
//! sessions does with them: it opens a session for each connection, hands
//! each session what its client sent, publishes what the session gives for
//! the bus, and hands each relaying session the events that wait for it. On
//! it stand the promises that no single session can keep alone: nobody hears
//! itself, everybody hears everybody else, in the order of publication, and a
//! client that left is announced once and is not heard of again.

use vstd::prelude::*;
use crate::bus::{queue_after_push, BusModel};
use crate::clock::StampView;
use crate::identity::ConnectionIdentity;
use crate::message::{spec_chat_line, spec_departure_announcement, ChatEventView};
use crate::session::{
    lemma_on_inbound_keeps,
    spec_on_bus_event,
    spec_on_inbound,
    InboundView,
    Phase,
    SessionView,
};

verus! {

/// One client of the relay: its session, and what has come to it off the bus.
pub struct ClientModel {
    /// The state of the session.
    pub session: SessionView,
    /// The length of the log when the session subscribed.
    pub joined_at: nat,
    /// The positions in the log of the events whose text was written to the
    /// client, in the order in which they were written.
    pub relayed: Seq<int>,
    /// The positions in the log of the events that the bus dropped for this
    /// client because it had fallen behind.
    pub missed: Set<int>,
}

/// The relay: the bus and everyone who ever connected.
pub struct RelayModel {
    pub bus: BusModel,
    pub clients: Map<ConnectionIdentity, ClientModel>,
}

/// One thing that happens in the relay.
pub enum RelayStep {
    /// A connection is accepted under the identity `id`.
    Accept { id: ConnectionIdentity },
    /// The session `id` gets the outcome of a read from its client, at the
    /// time that `stamp` shows.
    Inbound { id: ConnectionIdentity, inbound: InboundView, stamp: StampView },
    /// The session `id` takes the oldest event that waits for it on the bus.
    Deliver { id: ConnectionIdentity },
}

impl RelayModel {
    /// The relay before anyone has connected.
    pub open spec fn started(depth: nat) -> RelayModel {
        RelayModel { bus: BusModel::fresh(depth), clients: Map::empty() }
    }

    /// Tells whether `id` has ever connected.
    pub open spec fn knows(self, id: ConnectionIdentity) -> bool {
        self.clients.contains_key(id)
    }

    /// Tells whether the session `id` is relaying.
    pub open spec fn is_active(self, id: ConnectionIdentity) -> bool {
        self.knows(id) && self.clients[id].session.phase is Active
    }

    /// The relay after a connection has been accepted under `id`: a session
    /// in its handshake, subscribed to the bus from here on. An identity that
    /// is already taken opens nothing.
    pub open spec fn accept(self, id: ConnectionIdentity) -> RelayModel {
        if self.knows(id) {
            self
        } else {
            RelayModel {
                bus: self.bus.subscribe(id),
                clients: self.clients.insert(
                    id,
                    ClientModel {
                        session: SessionView::opened(id),
                        joined_at: self.bus.log.len(),
                        relayed: Seq::empty(),
                        missed: Set::empty(),
                    },
                ),
            }
        }
    }

    /// The relay after the session `id` has taken the outcome of a read: the
    /// session moves on, what it gives for the bus is published, and a
    /// session that has ended drops its subscription.
    pub open spec fn inbound(
        self,
        id: ConnectionIdentity,
        inbound: InboundView,
        stamp: StampView,
    ) -> RelayModel {
        if !self.knows(id) {
            self
        } else {
            let client = self.clients[id];
            let (session, reaction) = spec_on_inbound(client.session, inbound, stamp);
            let published = match reaction.to_bus {
                Some(event) => self.bus.publish(event),
                None => self.bus,
            };
            let bus = if session.phase is Terminated {
                published.unsubscribe(id)
            } else {
                published
            };
            RelayModel { bus, clients: self.clients.insert(id, ClientModel { session, ..client }) }
        }
    }

    /// The relay after the session `id` has taken the oldest event that
    /// waits for it: what the session gives for it is written to the client,
    /// and what the bus had dropped before it is lost. Only a session that is
    /// relaying takes events.
    pub open spec fn deliver(self, id: ConnectionIdentity) -> RelayModel {
        if !(self.is_active(id) && self.bus.has_pending(id)) {
            self
        } else {
            let client = self.clients[id];
            let at = self.bus.head(id) as int;
            let relayed = match spec_on_bus_event(client.session, self.bus.log[at]) {
                Some(_) => client.relayed.push(at),
                None => client.relayed,
            };
            let missed = client.missed.union(
                Set::new(|p: int| self.bus.cursor[id] <= p < self.bus.head(id)),
            );
            RelayModel {
                bus: self.bus.receive(id),
                clients: self.clients.insert(id, ClientModel { relayed, missed, ..client }),
            }
        }
    }

    /// The relay after `step`.
    pub open spec fn next(self, step: RelayStep) -> RelayModel {
        match step {
            RelayStep::Accept { id } => self.accept(id),
            RelayStep::Inbound { id, inbound, stamp } => self.inbound(id, inbound, stamp),
            RelayStep::Deliver { id } => self.deliver(id),
        }
    }

    /// The relay after all of `steps`, one after the other.
    pub open spec fn run(self, steps: Seq<RelayStep>) -> RelayModel
        decreases steps.len(),
    {
        if steps.len() == 0 {
            self
        } else {
            self.run(steps.drop_last()).next(steps.last())
        }
    }

    /// The texts that came to the client `id` off the bus, in the order in
    /// which they were written.
    pub open spec fn relayed_texts(self, id: ConnectionIdentity) -> Seq<Seq<char>> {
        Seq::new(
            self.clients[id].relayed.len(),
            |k: int| self.bus.log[self.clients[id].relayed[k]].text,
        )
    }

    /// What holds of everything written to the client `id` off the bus: it
    /// was published after the client joined, by somebody else, it was not
    /// dropped, and it was written in the order of publication.
    pub open spec fn relayed_in_order(self, id: ConnectionIdentity) -> bool {
        let client = self.clients[id];
        &&& forall|k: int|
            0 <= k < client.relayed.len() ==> {
                &&& client.joined_at <= #[trigger] client.relayed[k] < self.bus.log.len()
                &&& self.bus.log[client.relayed[k]].origin != id
                &&& !client.missed.contains(client.relayed[k])
                &&& (self.bus.is_live(id) ==> client.relayed[k] < self.bus.cursor[id])
            }
        &&& forall|j: int, k: int|
            0 <= j < k < client.relayed.len() ==> #[trigger] client.relayed[j]
                < #[trigger] client.relayed[k]
    }

    /// Of what was published since the client `id` joined and before the
    /// point it has read up to, every event of somebody else was either
    /// written to the client or dropped by the bus.
    pub open spec fn nothing_unaccounted(self, id: ConnectionIdentity) -> bool {
        let client = self.clients[id];
        self.bus.is_live(id) ==> forall|p: int|
            client.joined_at <= p < self.bus.cursor[id] && (#[trigger] self.bus.log[p]).origin
                != id ==> client.relayed.contains(p) || client.missed.contains(p)
    }

    /// What the bus dropped for the client `id` lies behind the point the
    /// client has read up to.
    pub open spec fn missed_lies_behind(self, id: ConnectionIdentity) -> bool {
        let client = self.clients[id];
        self.bus.is_live(id) ==> forall|p: int| #[trigger]
            client.missed.contains(p) ==> client.joined_at <= p < self.bus.cursor[id]
    }

    /// What holds of the client `id` at all times.
    pub open spec fn client_inv(self, id: ConnectionIdentity) -> bool {
        let client = self.clients[id];
        &&& client.session.identity == id
        &&& client.session.wf()
        &&& client.joined_at <= self.bus.log.len()
        &&& (client.session.phase is Terminated <==> !self.bus.is_live(id))
        &&& (self.bus.is_live(id) ==> client.joined_at <= self.bus.cursor[id])
        &&& self.relayed_in_order(id)
        &&& self.missed_lies_behind(id)
        &&& self.nothing_unaccounted(id)
    }

    /// What holds of the relay at all times.
    pub open spec fn inv(self) -> bool {
        &&& self.bus.wf()
        &&& forall|id: ConnectionIdentity| #[trigger] self.bus.is_live(id) ==> self.knows(id)
        &&& forall|id: ConnectionIdentity| #[trigger] self.knows(id) ==> self.client_inv(id)
    }

    /// How the client `id` in a later state of the relay stands to the same
    /// client in an earlier one: it joined where it joined, it has not gone
    /// back to an earlier phase, it has kept its name, and what was written
    /// to it or dropped for it still is.
    pub open spec fn client_leads_to(self, later: RelayModel, id: ConnectionIdentity) -> bool {
        let before = self.clients[id];
        let after = later.clients[id];
        &&& later.knows(id)
        &&& after.joined_at == before.joined_at
        &&& (before.session.phase is Terminated ==> after.session.phase is Terminated)
        &&& (!(before.session.phase is Handshake) ==> !(after.session.phase is Handshake)
            && after.session.username == before.session.username)
        &&& forall|p: int| #[trigger] before.missed.contains(p) ==> after.missed.contains(p)
        &&& before.relayed.len() <= after.relayed.len()
        &&& forall|k: int|
            0 <= k < before.relayed.len() ==> #[trigger] after.relayed[k] == before.relayed[k]
    }

    /// How a later state of the relay stands to an earlier one: the log has
    /// only grown, at its end; whoever was known still is, as
    /// `client_leads_to` says; and nothing new in the log comes from a
    /// session that had ended.
    pub open spec fn leads_to(self, later: RelayModel) -> bool {
        &&& self.bus.depth == later.bus.depth
        &&& self.bus.log.len() <= later.bus.log.len()
        &&& forall|p: int|
            0 <= p < self.bus.log.len() ==> #[trigger] later.bus.log[p] == self.bus.log[p]
        &&& forall|id: ConnectionIdentity| #[trigger]
            self.knows(id) ==> self.client_leads_to(later, id)
        &&& forall|p: int|
            self.bus.log.len() <= p < later.bus.log.len() ==> {
                let origin = (#[trigger] later.bus.log[p]).origin;
                self.knows(origin) ==> !(self.clients[origin].session.phase is Terminated)
            }
    }
}

/// Before anyone has connected, everything is in order.
pub proof fn lemma_started_in_order(depth: nat)
    requires
        depth >= 1,
    ensures
        RelayModel::started(depth).inv(),
{
}

/// Accepting a connection keeps the relay in order.
proof fn lemma_accept_keeps(m: RelayModel, id: ConnectionIdentity)
    requires
        m.inv(),
    ensures
        m.accept(id).inv(),
        m.leads_to(m.accept(id)),
{
    let after = m.accept(id);
    if !m.knows(id) {
        assert forall|x: ConnectionIdentity| #[trigger] after.bus.is_live(x) implies after.knows(
            x,
        ) by {
            if x != id {
                assert(m.bus.is_live(x));
            }
        }
        assert forall|x: ConnectionIdentity| #[trigger] after.knows(x) implies after.client_inv(
            x,
        ) by {
            if x != id {
                assert(m.knows(x));
            }
        }
    }
}

/// Handing a session the outcome of a read keeps the relay in order.
proof fn lemma_inbound_keeps(
    m: RelayModel,
    id: ConnectionIdentity,
    inbound: InboundView,
    stamp: StampView,
)
    requires
        m.inv(),
    ensures
        m.inbound(id, inbound, stamp).inv(),
        m.leads_to(m.inbound(id, inbound, stamp)),
{
    let after = m.inbound(id, inbound, stamp);
    if m.knows(id) {
        lemma_on_inbound_keeps(m.clients[id].session, inbound, stamp);
        assert forall|x: ConnectionIdentity| #[trigger] after.bus.is_live(x) implies after.knows(
            x,
        ) by {
            assert(m.bus.is_live(x));
        }
        assert forall|x: ConnectionIdentity| #[trigger] after.knows(x) implies after.client_inv(
            x,
        ) by {
            assert(m.knows(x));
        }
    }
}

/// Handing a session the next event from the bus keeps the relay in order.
proof fn lemma_deliver_keeps(m: RelayModel, id: ConnectionIdentity)
    requires
        m.inv(),
    ensures
        m.deliver(id).inv(),
        m.leads_to(m.deliver(id)),
{
    let after = m.deliver(id);
    if m.is_active(id) && m.bus.has_pending(id) {
        let before = m.clients[id];
        let now = after.clients[id];
        let at = m.bus.head(id) as int;
        assert forall|x: ConnectionIdentity| #[trigger] after.bus.is_live(x) implies after.knows(
            x,
        ) by {
            if x != id {
                assert(m.bus.is_live(x));
            }
        }
        assert forall|x: ConnectionIdentity| #[trigger] after.knows(x) implies after.client_inv(
            x,
        ) by {
            assert(m.knows(x));
            if x == id {
                assert forall|p: int|
                    now.joined_at <= p < after.bus.cursor[id] && (#[trigger] after.bus.log[p]).origin
                        != id implies now.relayed.contains(p) || now.missed.contains(p) by {
                    if p < m.bus.cursor[id] {
                        if before.relayed.contains(p) {
                            let k = choose|k: int|
                                0 <= k < before.relayed.len() && before.relayed[k] == p;
                            assert(now.relayed[k] == p);
                        }
                    } else if p == at {
                        assert(now.relayed[now.relayed.len() - 1] == at);
                    }
                }
            }
        }
    }
}

/// Whatever happens next, the relay stays in order, and what has happened
/// stays as it was.
pub proof fn lemma_next_keeps(m: RelayModel, step: RelayStep)
    requires
        m.inv(),
    ensures
        m.next(step).inv(),
        m.leads_to(m.next(step)),
{
    match step {
        RelayStep::Accept { id } => lemma_accept_keeps(m, id),
        RelayStep::Inbound { id, inbound, stamp } => lemma_inbound_keeps(m, id, inbound, stamp),
        RelayStep::Deliver { id } => lemma_deliver_keeps(m, id),
    }
}

/// What has happened stays as it was over any number of states.
pub proof fn lemma_leads_to_chain(first: RelayModel, second: RelayModel, third: RelayModel)
    requires
        first.leads_to(second),
        second.leads_to(third),
    ensures
        first.leads_to(third),
{
    assert forall|id: ConnectionIdentity| #[trigger] first.knows(id) implies first.client_leads_to(
        third,
        id,
    ) by {
        assert(second.knows(id));
    }
    assert forall|p: int| first.bus.log.len() <= p < third.bus.log.len() implies ({
        let origin = (#[trigger] third.bus.log[p]).origin;
        first.knows(origin) ==> !(first.clients[origin].session.phase is Terminated)
    }) by {
        let origin = third.bus.log[p].origin;
        if p >= second.bus.log.len() && first.knows(origin) {
            assert(second.knows(origin));
        }
    }
}

/// Over any run, the relay stays in order, and what has happened stays as it
/// was.
pub proof fn lemma_run_keeps(m: RelayModel, steps: Seq<RelayStep>)
    requires
        m.inv(),
    ensures
        m.run(steps).inv(),
        m.leads_to(m.run(steps)),
    decreases steps.len(),
{
    if steps.len() > 0 {
        let earlier = m.run(steps.drop_last());
        lemma_run_keeps(m, steps.drop_last());
        lemma_next_keeps(earlier, steps.last());
        lemma_leads_to_chain(m, earlier, earlier.next(steps.last()));
    }
}

/// A text that was written to a client for the event at a position of the
/// log is among the texts that came to the client off the bus.
proof fn lemma_relayed_position_shows(m: RelayModel, id: ConnectionIdentity, p: int)
    requires
        m.clients[id].relayed.contains(p),
    ensures
        m.relayed_texts(id).contains(m.bus.log[p].text),
{
    let k = choose|k: int| 0 <= k < m.clients[id].relayed.len() && m.clients[id].relayed[k] == p;
    assert(m.relayed_texts(id)[k] == m.bus.log[p].text);
}

/// Nobody hears itself. In every state the relay can reach, nothing that was
/// written to a client off the bus had that client's own session as its
/// origin.
pub proof fn law_nobody_hears_itself(
    depth: nat,
    steps: Seq<RelayStep>,
    id: ConnectionIdentity,
    k: int,
)
    requires
        depth >= 1,
        RelayModel::started(depth).run(steps).knows(id),
        0 <= k < RelayModel::started(depth).run(steps).clients[id].relayed.len(),
    ensures
        ({
            let m = RelayModel::started(depth).run(steps);
            let p = m.clients[id].relayed[k];
            0 <= p < m.bus.log.len() && m.bus.log[p].origin != id
        }),
{
    lemma_started_in_order(depth);
    lemma_run_keeps(RelayModel::started(depth), steps);
}

/// What a session sends never comes back to it. If a step of the session
/// `id` puts an event on the bus, the event carries the identity `id`, and
/// whatever happens afterwards, that event is never among those written to
/// the client of `id`.
pub proof fn law_own_line_never_comes_back(
    depth: nat,
    past: Seq<RelayStep>,
    id: ConnectionIdentity,
    inbound: InboundView,
    stamp: StampView,
    more: Seq<RelayStep>,
)
    requires
        depth >= 1,
        RelayModel::started(depth).run(past).knows(id),
    ensures
        ({
            let m = RelayModel::started(depth).run(past);
            let sent = m.inbound(id, inbound, stamp);
            let later = sent.run(more);
            let p = m.bus.log.len() as int;
            sent.bus.log.len() > p ==> {
                &&& sent.bus.log.len() == p + 1
                &&& spec_on_inbound(m.clients[id].session, inbound, stamp).1.to_bus == Some(
                    sent.bus.log[p],
                )
                &&& later.bus.log[p] == sent.bus.log[p]
                &&& later.bus.log[p].origin == id
                &&& !later.clients[id].relayed.contains(p)
            }
        }),
{
    let m = RelayModel::started(depth).run(past);
    let sent = m.inbound(id, inbound, stamp);
    let later = sent.run(more);
    let p = m.bus.log.len() as int;
    lemma_started_in_order(depth);
    lemma_run_keeps(RelayModel::started(depth), past);
    lemma_inbound_keeps(m, id, inbound, stamp);
    lemma_run_keeps(sent, more);
    if sent.bus.log.len() > p {
        lemma_on_inbound_keeps(m.clients[id].session, inbound, stamp);
    }
}

/// Every subscriber hears the bus in the order of publication. In every
/// state the relay can reach, of any two texts written to a client off the
/// bus, the one written first was published first.
pub proof fn law_relayed_in_publish_order(
    depth: nat,
    steps: Seq<RelayStep>,
    id: ConnectionIdentity,
    j: int,
    k: int,
)
    requires
        depth >= 1,
        RelayModel::started(depth).run(steps).knows(id),
        0 <= j < k < RelayModel::started(depth).run(steps).clients[id].relayed.len(),
    ensures
        ({
            let m = RelayModel::started(depth).run(steps);
            m.clients[id].relayed[j] < m.clients[id].relayed[k]
        }),
{
    lemma_started_in_order(depth);
    lemma_run_keeps(RelayModel::started(depth), steps);
}

/// Everybody hears everybody else. When the session `a` is relaying and its
/// client sends a line, the line's broadcast form goes on the bus under the
/// identity of `a` and into the queue of every other session that is
/// connected. Whatever happens afterwards: once such a session `b` has read
/// up to that event, and the bus has not dropped the event for it, the text
/// is among those written to the client of `b`, as it was published.
pub proof fn law_fan_out_is_complete(
    depth: nat,
    past: Seq<RelayStep>,
    a: ConnectionIdentity,
    b: ConnectionIdentity,
    line: Seq<char>,
    stamp: StampView,
    more: Seq<RelayStep>,
)
    requires
        depth >= 1,
        a != b,
        RelayModel::started(depth).run(past).is_active(a),
        RelayModel::started(depth).run(past).bus.is_live(b),
    ensures
        ({
            let m = RelayModel::started(depth).run(past);
            let sent = m.inbound(a, InboundView::Line(line), stamp);
            let later = sent.run(more);
            let p = m.bus.log.len() as int;
            let event = ChatEventView {
                text: spec_chat_line(stamp.clock, m.clients[a].session.username, line),
                origin: a,
            };
            &&& sent.bus.log == m.bus.log.push(event)
            &&& sent.bus.is_live(b)
            &&& sent.bus.pending(b) == queue_after_push(m.bus.pending(b), event, depth)
            &&& later.bus.log[p] == event
            &&& (later.bus.is_live(b) && later.bus.cursor[b] > p && !later.clients[b].missed.contains(
                p,
            ) ==> later.clients[b].relayed.contains(p) && later.relayed_texts(b).contains(
                event.text,
            ))
        }),
{
    let start = RelayModel::started(depth);
    let m = start.run(past);
    let sent = m.inbound(a, InboundView::Line(line), stamp);
    let later = sent.run(more);
    let p = m.bus.log.len() as int;
    let event = ChatEventView {
        text: spec_chat_line(stamp.clock, m.clients[a].session.username, line),
        origin: a,
    };
    lemma_started_in_order(depth);
    lemma_run_keeps(start, past);
    lemma_inbound_keeps(m, a, InboundView::Line(line), stamp);
    lemma_run_keeps(sent, more);
    crate::bus::law_publish_reaches_every_subscriber(m.bus, event, b);
    if later.bus.is_live(b) && later.bus.cursor[b] > p && !later.clients[b].missed.contains(p) {
        assert(later.bus.log[p].origin != b);
        lemma_relayed_position_shows(later, b, p);
    }
}

/// A client that leaves is announced once and not heard of again. When the
/// session `a` is relaying and its client closes the connection, or a
/// failure says that the peer is gone, exactly one event goes on the bus: the
/// departure announcement with the client's name and the date, under the
/// identity of `a`. It goes into the queue of every other session that is
/// connected. The session `a` has ended and has dropped its subscription.
/// Whatever happens afterwards, nothing more on the bus comes from `a`, and
/// another session `b` that has read up to the announcement, unless the bus
/// dropped it, has had it written to its client: once, since a position of
/// the log is written to a client at most once.
pub proof fn law_departure_exactly_once(
    depth: nat,
    past: Seq<RelayStep>,
    a: ConnectionIdentity,
    b: ConnectionIdentity,
    inbound: InboundView,
    stamp: StampView,
    more: Seq<RelayStep>,
)
    requires
        depth >= 1,
        a != b,
        RelayModel::started(depth).run(past).is_active(a),
        RelayModel::started(depth).run(past).bus.is_live(b),
        inbound is Closed || (inbound matches InboundView::Failed(failure)
            && failure.spec_is_reset_class()),
    ensures
        ({
            let m = RelayModel::started(depth).run(past);
            let left = m.inbound(a, inbound, stamp);
            let later = left.run(more);
            let p = m.bus.log.len() as int;
            let event = ChatEventView {
                text: spec_departure_announcement(m.clients[a].session.username, stamp.calendar),
                origin: a,
            };
            &&& left.bus.log == m.bus.log.push(event)
            &&& left.clients[a].session.phase is Terminated
            &&& !left.bus.is_live(a)
            &&& left.bus.is_live(b)
            &&& left.bus.pending(b) == queue_after_push(m.bus.pending(b), event, depth)
            &&& later.bus.log[p] == event
            &&& later.clients[a].session.phase is Terminated
            &&& forall|q: int| p < q < later.bus.log.len() ==> (#[trigger] later.bus.log[q]).origin != a
            &&& (later.bus.is_live(b) && later.bus.cursor[b] > p && !later.clients[b].missed.contains(
                p,
            ) ==> later.clients[b].relayed.contains(p) && later.relayed_texts(b).contains(
                event.text,
            ))
            &&& forall|j: int, k: int|
                0 <= j < k < later.clients[b].relayed.len() ==> !(later.clients[b].relayed[j] == p
                    && later.clients[b].relayed[k] == p)
        }),
{
    let start = RelayModel::started(depth);
    let m = start.run(past);
    let left = m.inbound(a, inbound, stamp);
    let later = left.run(more);
    let p = m.bus.log.len() as int;
    let event = ChatEventView {
        text: spec_departure_announcement(m.clients[a].session.username, stamp.calendar),
        origin: a,
    };
    lemma_started_in_order(depth);
    lemma_run_keeps(start, past);
    lemma_inbound_keeps(m, a, inbound, stamp);
    lemma_run_keeps(left, more);
    let published = m.bus.publish(event);
    crate::bus::law_publish_reaches_every_subscriber(m.bus, event, b);
    crate::bus::law_unsubscribe_leaves_others(published, a, b);
    if later.bus.is_live(b) && later.bus.cursor[b] > p && !later.clients[b].missed.contains(p) {
        assert(later.bus.log[p].origin != b);
        lemma_relayed_position_shows(later, b, p);
    }
}

} // verus!
