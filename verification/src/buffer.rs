//! The shock-absorber buffer: an ordered, unbounded FIFO of canonical
//! events. The translator is its sole producer (append) and the batcher its
//! sole consumer (drain-all); no entry survives past one drain cycle.

use vstd::prelude::*;

use crate::event::HighlightEvent;

verus! {

/// An ordered FIFO queue of canonical highlight events, viewed as the
/// sequence of queued events, oldest first.
pub struct Buffer {
    events: Vec<HighlightEvent>,
}

impl View for Buffer {
    type V = Seq<HighlightEvent>;

    closed spec fn view(&self) -> Seq<HighlightEvent> {
        self.events@
    }
}

impl Buffer {
    /// Creates an empty buffer.
    pub fn new() -> (r: Buffer)
        ensures
            r@ == Seq::<HighlightEvent>::empty(),
    {
        Buffer { events: Vec::new() }
    }

    /// The number of queued events.
    pub fn len(&self) -> (n: usize)
        ensures
            n == self@.len(),
    {
        self.events.len()
    }

    /// Whether no event is queued.
    pub fn is_empty(&self) -> (b: bool)
        ensures
            b == (self@.len() == 0),
    {
        self.events.len() == 0
    }

    /// Appends one event behind all queued events.
    pub fn push(&mut self, e: HighlightEvent)
        ensures
            final(self)@ == old(self)@.push(e),
    {
        self.events.push(e);
    }

    /// Atomically removes every queued event, oldest first, leaving the
    /// buffer empty. Batches taken by successive drains never merge or
    /// reorder events relative to arrival order.
    pub fn drain_all(&mut self) -> (r: Vec<HighlightEvent>)
        ensures
            r@ == old(self)@,
            final(self)@ == Seq::<HighlightEvent>::empty(),
    {
        let mut out: Vec<HighlightEvent> = Vec::new();
        core::mem::swap(&mut out, &mut self.events);
        out
    }
}

/// The queue `q` after enqueueing the events `es` behind it, one at a time,
/// oldest first.
pub open spec fn spec_push_all(
    q: Seq<HighlightEvent>,
    es: Seq<HighlightEvent>,
) -> Seq<HighlightEvent>
    decreases es.len(),
{
    if es.len() == 0 {
        q
    } else {
        spec_push_all(q.push(es[0]), es.drop_first())
    }
}

/// The order law of the buffer: enqueueing events one at a time behind a
/// queue leaves exactly the old queue followed by those events in enqueue
/// order, and one drain returns the queue whole — so events enqueued within
/// one tick window are forwarded in exactly the order they arrived.
pub proof fn lemma_fifo_order(q: Seq<HighlightEvent>, es: Seq<HighlightEvent>)
    ensures
        spec_push_all(q, es) == q + es,
    decreases es.len(),
{
    if es.len() == 0 {
        assert(q + es =~= q);
    } else {
        lemma_fifo_order(q.push(es[0]), es.drop_first());
        assert(q.push(es[0]) + es.drop_first() =~= q + es);
    }
}

} // verus!
