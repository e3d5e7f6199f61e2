//! Queues of events.

use vstd::prelude::*;

verus! {

/// A queue of events of one type, kept as a resource.
pub struct Events<E> {
    pub events: Vec<E>,
}

impl<E> View for Events<E> {
    type V = Seq<E>;

    /// The events, in the order in which they were sent.
    open spec fn view(&self) -> Seq<E> {
        self.events@
    }
}

impl<E> Events<E> {
    /// A queue without events.
    pub fn new() -> (queue: Self)
        ensures
            queue@ == Seq::<E>::empty(),
            queue.events@ == Seq::<E>::empty(),
    {
        Events { events: Vec::new() }
    }

    /// Puts `events` at the end of the queue, in order.
    pub fn extend(&mut self, events: Vec<E>)
        ensures
            final(self)@ == old(self)@ + events@,
            final(self).events@ == old(self).events@ + events@,
    {
        let mut events = events;
        self.events.append(&mut events);
    }
}

} // verus!
