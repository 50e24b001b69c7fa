//! The event channel: a bounded FIFO from the worker to the peripheral's
//! single subscriber.
//!
//! The worker appends events in the order it observed them from the native
//! layer; the subscriber always takes the oldest one, so delivery order is
//! observation order. The queue is bounded, and of the two policies a
//! bounded channel allows — block the publisher, or drop with a warning —
//! it takes the second: the worker is the one execution context that may
//! touch the native stack, so it must never be parked on a slow
//! subscriber, and `publish` reports the drop instead of losing the event
//! silently. A deployment that prefers blocking applies backpressure one
//! step later, by forwarding each event as it is published into a bounded
//! channel of its own.

use vstd::prelude::*;

use crate::gatt::peripheral_event::PeripheralEvent;

verus! {

/// A bounded FIFO of peripheral events.
pub struct EventQueue {
    items: Vec<PeripheralEvent>,
    capacity: usize,
}

impl EventQueue {
    /// The queued events, oldest first.
    pub closed spec fn contents(self) -> Seq<PeripheralEvent> {
        self.items@
    }

    /// The bound the queue was created with.
    pub closed spec fn cap(self) -> nat {
        self.capacity as nat
    }

    pub fn new(capacity: usize) -> (q: EventQueue)
        requires
            1 <= capacity,
        ensures
            q.contents() == Seq::<PeripheralEvent>::empty(),
            q.cap() == capacity,
    {
        EventQueue { items: Vec::new(), capacity }
    }

    pub fn len(&self) -> (n: usize)
        ensures
            n == self.contents().len(),
    {
        self.items.len()
    }

    /// Appends `event` behind everything already queued. Returns whether the
    /// event was accepted; a full queue drops it unchanged.
    pub fn publish(&mut self, event: PeripheralEvent) -> (accepted: bool)
        ensures
            final(self).cap() == old(self).cap(),
            old(self).contents().len() < old(self).cap() ==> accepted && final(self).contents()
                == old(self).contents().push(event),
            old(self).contents().len() >= old(self).cap() ==> !accepted && final(self).contents()
                == old(self).contents(),
    {
        if self.items.len() < self.capacity {
            self.items.push(event);
            true
        } else {
            false
        }
    }

    /// Takes the oldest queued event; the rest keep their order.
    pub fn next(&mut self) -> (r: Option<PeripheralEvent>)
        ensures
            final(self).cap() == old(self).cap(),
            old(self).contents().len() == 0 ==> r is None && final(self).contents() == old(
                self,
            ).contents(),
            old(self).contents().len() > 0 ==> (r matches Some(e) && e == old(self).contents()[0])
                && final(self).contents() == old(self).contents().drop_first(),
    {
        if self.items.len() == 0 {
            None
        } else {
            let e = self.items.remove(0);
            proof {
                assert(self.items@ =~= old(self).items@.drop_first());
            }
            Some(e)
        }
    }
}

/// Law: publication preserves order. Whatever is queued, an event accepted
/// now sits behind it, and one accepted after that sits behind both — and
/// since `next` always takes the lowest position, the subscriber observes
/// the two in publication order. In particular a subscribe event published
/// before the matching unsubscribe event is delivered before it.
pub proof fn lemma_publish_preserves_order(
    q: Seq<PeripheralEvent>,
    first: PeripheralEvent,
    second: PeripheralEvent,
)
    ensures
        q.push(first).push(second)[q.len() as int] == first,
        q.push(first).push(second)[q.len() as int + 1] == second,
{
}

} // verus!
