//! The broadcast bus, as the relay relies on it.
//!
//! The bus itself is a channel of the program that embeds this crate. What
//! stands here is its contract, written as a mathematical model: everything
//! published is kept in one log, in the order of publication, and every
//! subscriber reads that log from the point where it subscribed, oldest
//! first. Each subscriber has a bounded queue; one that falls further behind
//! than the queue is deep loses the oldest events it has not read.

use vstd::prelude::*;
use crate::identity::ConnectionIdentity;
use crate::message::ChatEventView;

verus! {

/// The state of the bus.
pub struct BusModel {
    /// How many unread events the bus keeps for one subscriber.
    pub depth: nat,
    /// Every event published so far, in the order of publication.
    pub log: Seq<ChatEventView>,
    /// For every live subscriber, the position in the log of the event it
    /// reads next, unless it has fallen behind.
    pub cursor: Map<ConnectionIdentity, nat>,
}

/// A queue of at most `depth` events after one more has come in: the new
/// event goes to the end, and the oldest leaves if the queue was full.
pub open spec fn queue_after_push(queue: Seq<ChatEventView>, event: ChatEventView, depth: nat) -> Seq<
    ChatEventView,
> {
    if queue.len() < depth {
        queue.push(event)
    } else {
        queue.drop_first().push(event)
    }
}

impl BusModel {
    /// A bus on which nothing has happened yet.
    pub open spec fn fresh(depth: nat) -> BusModel {
        BusModel { depth, log: Seq::empty(), cursor: Map::empty() }
    }

    /// The queues hold at least one event, and no subscriber is ahead of the
    /// log.
    pub open spec fn wf(self) -> bool {
        &&& self.depth >= 1
        &&& forall|id: ConnectionIdentity| #[trigger]
            self.cursor.contains_key(id) ==> self.cursor[id] <= self.log.len()
    }

    /// Tells whether `id` is subscribed.
    pub open spec fn is_live(self, id: ConnectionIdentity) -> bool {
        self.cursor.contains_key(id)
    }

    /// The bus after `id` has subscribed: it will see what is published from
    /// now on, nothing of what was published before.
    pub open spec fn subscribe(self, id: ConnectionIdentity) -> BusModel {
        BusModel { cursor: self.cursor.insert(id, self.log.len()), ..self }
    }

    /// The bus after `id` has dropped its subscription.
    pub open spec fn unsubscribe(self, id: ConnectionIdentity) -> BusModel {
        BusModel { cursor: self.cursor.remove(id), ..self }
    }

    /// The bus after `event` has been published.
    pub open spec fn publish(self, event: ChatEventView) -> BusModel {
        BusModel { log: self.log.push(event), ..self }
    }

    /// The position in the log of the oldest event that the bus still holds
    /// for `id`.
    pub open spec fn head(self, id: ConnectionIdentity) -> nat {
        if self.cursor[id] + self.depth >= self.log.len() {
            self.cursor[id]
        } else {
            (self.log.len() - self.depth) as nat
        }
    }

    /// How many events `id` has lost by falling behind since it last read.
    pub open spec fn overrun(self, id: ConnectionIdentity) -> nat {
        (self.head(id) - self.cursor[id]) as nat
    }

    /// The events that wait for `id`, oldest first.
    pub open spec fn pending(self, id: ConnectionIdentity) -> Seq<ChatEventView> {
        self.log.subrange(self.head(id) as int, self.log.len() as int)
    }

    /// Tells whether an event waits for `id`.
    pub open spec fn has_pending(self, id: ConnectionIdentity) -> bool {
        self.is_live(id) && self.head(id) < self.log.len()
    }

    /// The bus after `id` has taken the oldest event that waits for it.
    pub open spec fn receive(self, id: ConnectionIdentity) -> BusModel {
        BusModel { cursor: self.cursor.insert(id, self.head(id) + 1), ..self }
    }
}

/// Publishing keeps the bus well formed and puts the event at the end of
/// every live subscriber's queue; a full queue loses its oldest event for it.
/// The publisher is never held up: the step is defined whatever the queues
/// hold.
pub proof fn law_publish_reaches_every_subscriber(
    bus: BusModel,
    event: ChatEventView,
    id: ConnectionIdentity,
)
    requires
        bus.wf(),
        bus.is_live(id),
    ensures
        bus.publish(event).wf(),
        bus.publish(event).is_live(id),
        bus.pending(id).len() <= bus.depth,
        bus.publish(event).pending(id) == queue_after_push(bus.pending(id), event, bus.depth),
        bus.publish(event).pending(id).last() == event,
{
}

/// A new subscriber starts with an empty queue: it sees nothing of what was
/// published before it came. The other subscribers' queues stay as they are.
pub proof fn law_subscriber_starts_empty(
    bus: BusModel,
    id: ConnectionIdentity,
    other: ConnectionIdentity,
)
    requires
        bus.wf(),
        other != id,
    ensures
        bus.subscribe(id).wf(),
        bus.subscribe(id).is_live(id),
        bus.subscribe(id).pending(id) == Seq::<ChatEventView>::empty(),
        bus.subscribe(id).is_live(other) == bus.is_live(other),
        bus.subscribe(id).pending(other) == bus.pending(other),
{
}

/// A subscriber reads its queue oldest first, one event at a time. What it
/// takes is gone from its own queue and from no other.
pub proof fn law_subscriber_reads_oldest_first(
    bus: BusModel,
    id: ConnectionIdentity,
    other: ConnectionIdentity,
)
    requires
        bus.wf(),
        bus.has_pending(id),
        other != id,
    ensures
        bus.receive(id).wf(),
        bus.log[bus.head(id) as int] == bus.pending(id)[0],
        bus.receive(id).pending(id) == bus.pending(id).drop_first(),
        bus.receive(id).overrun(id) == 0,
        bus.receive(id).is_live(other) == bus.is_live(other),
        bus.receive(id).pending(other) == bus.pending(other),
{
}

/// Dropping a subscription touches nobody else's queue.
pub proof fn law_unsubscribe_leaves_others(
    bus: BusModel,
    id: ConnectionIdentity,
    other: ConnectionIdentity,
)
    requires
        bus.wf(),
        other != id,
    ensures
        bus.unsubscribe(id).wf(),
        !bus.unsubscribe(id).is_live(id),
        bus.unsubscribe(id).is_live(other) == bus.is_live(other),
        bus.unsubscribe(id).pending(other) == bus.pending(other),
{
}

} // verus!
