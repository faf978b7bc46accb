use vstd::prelude::*;

use crate::event::Event;

verus! {

/// The ordered buffer of pending events for one peer. Producers append at
/// the tail, the single consumer (the peer's step operation) removes from
/// the front; first in, first out, with no deduplication or coalescing. Its
/// view is the sequence of pending events, oldest first.
#[derive(Debug)]
pub struct EventQueue {
    items: Vec<Event>,
}

impl View for EventQueue {
    type V = Seq<Event>;

    closed spec fn view(&self) -> Seq<Event> {
        self.items@
    }
}

impl EventQueue {
    /// An empty queue.
    pub fn new() -> (q: EventQueue)
        ensures
            q@ == Seq::<Event>::empty(),
    {
        EventQueue { items: Vec::new() }
    }

    /// How many events are pending.
    pub fn len(&self) -> (n: usize)
        ensures
            n == self@.len(),
    {
        self.items.len()
    }

    /// Appends `event` at the tail; never fails and drops nothing.
    pub fn enqueue(&mut self, event: Event)
        ensures
            final(self)@ == old(self)@.push(event),
    {
        self.items.push(event);
    }

    /// Removes and returns the oldest pending event; `None` on an empty
    /// queue, which is an expected condition, not an error.
    pub fn dequeue(&mut self) -> (r: Option<Event>)
        ensures
            old(self)@.len() == 0 ==> r is None && final(self)@ == old(self)@,
            old(self)@.len() > 0 ==> r == Some(old(self)@[0]) && final(self)@ == old(
                self,
            )@.drop_first(),
    {
        if self.items.len() == 0 {
            None
        } else {
            let e = self.items.remove(0);
            proof {
                assert(self@ =~= old(self)@.drop_first());
            }
            Some(e)
        }
    }
}

/// First in, first out: whatever is already pending, enqueueing `e1` and
/// then `e2` places `e1` at an earlier position than `e2`, so draining the
/// queue yields `e1` before `e2`.
pub proof fn lemma_fifo_order(pending: Seq<Event>, e1: Event, e2: Event)
    ensures
        pending.push(e1).push(e2)[pending.len() as int] == e1,
        pending.push(e1).push(e2)[pending.len() as int + 1] == e2,
{
}

} // verus!
