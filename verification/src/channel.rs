//! The bounded event conduit between the session and its consumer.
//!
//! The channel is the single ordering authority of the system: the consumer
//! observes events exactly in the order producers put them in.  It is a
//! FIFO queue of fixed capacity; a send on a full queue is refused and left
//! to be retried, so a slow consumer throttles the producers and nothing
//! is ever dropped.

use vstd::prelude::*;
use crate::events::Event;

verus! {

/// How many pending events the channel holds at most.
pub const CAPACITY: usize = 16;

/// A bounded FIFO queue of session events.
pub struct Channel {
    items: Vec<Event>,
}

impl View for Channel {
    type V = Seq<Event>;

    closed spec fn view(&self) -> Seq<Event> {
        self.items@
    }
}

impl Channel {
    /// The channel never holds more than `CAPACITY` events.
    pub open spec fn wf(&self) -> bool {
        self@.len() <= CAPACITY
    }

    /// An empty channel.
    pub fn new() -> (c: Channel)
        ensures
            c@ == Seq::<Event>::empty(),
            c.wf(),
    {
        Channel { items: Vec::new() }
    }

    /// How many events are pending.
    pub fn len(&self) -> (n: usize)
        ensures
            n == self@.len(),
    {
        self.items.len()
    }

    /// Whether a send would currently be accepted.
    pub fn has_room(&self) -> (r: bool)
        ensures
            r == (self@.len() < CAPACITY),
    {
        self.items.len() < CAPACITY
    }

    /// Append one event, unless the channel is full.
    ///
    /// A refused send changes nothing: the caller blocks and retries, it
    /// never drops the event.
    pub fn try_send(&mut self, e: Event) -> (ok: bool)
        requires
            old(self).wf(),
        ensures
            final(self).wf(),
            ok == (old(self)@.len() < CAPACITY),
            ok ==> final(self)@ == old(self)@.push(e),
            !ok ==> final(self)@ == old(self)@,
    {
        if self.items.len() < CAPACITY {
            self.items.push(e);
            true
        } else {
            false
        }
    }

    /// Take the oldest pending event, if there is one.
    pub fn recv(&mut self) -> (r: Option<Event>)
        requires
            old(self).wf(),
        ensures
            final(self).wf(),
            old(self)@.len() == 0 ==> r is None && final(self)@ == old(self)@,
            old(self)@.len() > 0 ==> r == Some(old(self)@[0]) && final(self)@ == old(self)@.drop_first(),
    {
        if self.items.len() > 0 {
            Some(self.items.remove(0))
        } else {
            None
        }
    }
}

/// Everything the consumer observes when a queue holding `q` is drained
/// while a producer still has the events `p` to send, in order.  The
/// producer sends whenever there is room; when the queue is full it is
/// blocked and the consumer takes the oldest event first.
pub open spec fn spec_drained(q: Seq<Event>, p: Seq<Event>) -> Seq<Event>
    decreases p.len(), q.len(),
{
    if p.len() > 0 && q.len() < CAPACITY {
        spec_drained(q.push(p[0]), p.drop_first())
    } else if q.len() > 0 {
        seq![q[0]] + spec_drained(q.drop_first(), p)
    } else {
        Seq::empty()
    }
}

/// Backpressure preserves every event and its order: however sends and
/// receives interleave under the blocking discipline, the consumer ends up
/// observing exactly the queued events followed by the pending sends, in
/// their original order.  In particular nothing a full queue refused is
/// dropped or reordered.
pub proof fn lemma_backpressure_order(q: Seq<Event>, p: Seq<Event>)
    ensures
        spec_drained(q, p) == q + p,
    decreases p.len(), q.len(),
{
    if p.len() > 0 && q.len() < CAPACITY {
        lemma_backpressure_order(q.push(p[0]), p.drop_first());
        assert(q.push(p[0]) + p.drop_first() =~= q + p);
    } else if q.len() > 0 {
        lemma_backpressure_order(q.drop_first(), p);
        assert(seq![q[0]] + (q.drop_first() + p) =~= q + p);
    } else {
        assert(q + p =~= Seq::empty());
    }
}

} // verus!
