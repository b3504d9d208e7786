//! The event queue: a FIFO buffer of accepted raw events, shared between
//! the producer callback and the polling consumer. Enqueue appends at the
//! tail, dequeue pops the head without blocking; there is no reordering,
//! coalescing, or capacity limit.

use vstd::prelude::*;

use std::collections::VecDeque;

use crate::taxonomy::{RawEvent, RawEventModel};

verus! {

/// What the head of a queue holds: the oldest event, or nothing when the
/// queue is empty.
pub open spec fn queue_front(q: Seq<RawEventModel>) -> Option<RawEventModel> {
    if q.len() == 0 {
        None
    } else {
        Some(q[0])
    }
}

/// What remains of a queue after one dequeue: everything but the oldest
/// event, or the queue unchanged when it was empty.
pub open spec fn queue_rest(q: Seq<RawEventModel>) -> Seq<RawEventModel> {
    if q.len() == 0 {
        q
    } else {
        q.drop_first()
    }
}

/// A FIFO buffer of raw events.
pub struct EventQueue {
    items: VecDeque<RawEvent>,
}

impl View for EventQueue {
    type V = Seq<RawEventModel>;

    closed spec fn view(&self) -> Seq<RawEventModel> {
        self.items.deep_view()
    }
}

impl EventQueue {
    /// An empty queue.
    pub fn new() -> (r: Self)
        ensures
            r@ == Seq::<RawEventModel>::empty(),
    {
        let queue = EventQueue { items: VecDeque::new() };
        proof {
            assert(queue@ =~= Seq::<RawEventModel>::empty());
        }
        queue
    }

    /// How many events are buffered.
    pub fn len(&self) -> (n: usize)
        ensures
            n == self@.len(),
    {
        self.items.len()
    }

    /// Appends an event at the tail. Every earlier event keeps its place.
    pub fn enqueue(&mut self, e: RawEvent)
        ensures
            final(self)@ == old(self)@.push(e@),
    {
        let ghost previous = self@;
        let ghost pushed = e@;
        self.items.push_back(e);
        proof {
            assert(self@ =~= previous.push(pushed));
        }
    }

    /// Pops the head if one is present; an empty queue reports `None` at
    /// once, which is a normal steady state and not an error.
    pub fn dequeue(&mut self) -> (r: Option<RawEvent>)
        ensures
            r is Some <==> old(self)@.len() > 0,
            r matches Some(e) ==> e@ == old(self)@[0],
            final(self)@ == queue_rest(old(self)@),
    {
        let ghost previous = self@;
        let popped = self.items.pop_front();
        proof {
            assert(self@ =~= queue_rest(previous));
        }
        popped
    }
}

/// First in, first out: three events enqueued into an empty queue are
/// dequeued in arrival order, and a fourth dequeue finds the queue empty.
pub proof fn lemma_fifo_order(e1: RawEventModel, e2: RawEventModel, e3: RawEventModel)
    ensures
        queue_front(Seq::<RawEventModel>::empty().push(e1).push(e2).push(e3)) == Some(e1),
        queue_front(queue_rest(Seq::<RawEventModel>::empty().push(e1).push(e2).push(e3))) == Some(
            e2,
        ),
        queue_front(
            queue_rest(queue_rest(Seq::<RawEventModel>::empty().push(e1).push(e2).push(e3))),
        ) == Some(e3),
        queue_front(
            queue_rest(
                queue_rest(queue_rest(Seq::<RawEventModel>::empty().push(e1).push(e2).push(e3))),
            ),
        ) is None,
{
    let q3 = Seq::<RawEventModel>::empty().push(e1).push(e2).push(e3);
    assert(queue_rest(q3) =~= Seq::<RawEventModel>::empty().push(e2).push(e3));
    assert(queue_rest(queue_rest(q3)) =~= Seq::<RawEventModel>::empty().push(e3));
    assert(queue_rest(queue_rest(queue_rest(q3))) =~= Seq::<RawEventModel>::empty());
}

} // verus!
