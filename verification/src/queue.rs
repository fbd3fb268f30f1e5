//! Bounded FIFO task queues with drop-on-full semantics.
//!
//! A full queue never blocks an interrupt handler: the offered event is
//! discarded and a monotonic drop counter is incremented.

use vstd::prelude::*;

use crate::errors::CoreError;
use crate::events::Event;

verus! {

/// The queue contents and drop count after offering `e` to a FIFO of
/// capacity `cap`: the event is appended when there is room, else it is
/// discarded and the drop count rises by one.
pub open spec fn offer(contents: Seq<Event>, dropped: int, cap: int, e: Event) -> (Seq<
    Event,
>, int) {
    if contents.len() < cap {
        (contents.push(e), dropped)
    } else {
        (contents, dropped + 1)
    }
}

/// The queue contents and drop count after offering every event of `es`
/// in order.
pub open spec fn offer_all(contents: Seq<Event>, dropped: int, cap: int, es: Seq<Event>) -> (
    Seq<Event>,
    int,
)
    decreases es.len(),
{
    if es.len() == 0 {
        (contents, dropped)
    } else {
        let stepped = offer(contents, dropped, cap, es[0]);
        offer_all(stepped.0, stepped.1, cap, es.drop_first())
    }
}

/// A bounded FIFO event queue with a monotonic drop counter.
pub struct EventQueue {
    items: Vec<Event>,
    capacity: usize,
    dropped: u64,
}

impl View for EventQueue {
    type V = Seq<Event>;

    closed spec fn view(&self) -> Seq<Event> {
        self.items@
    }
}

impl EventQueue {
    /// The fixed capacity the queue was created with.
    pub closed spec fn capacity(&self) -> usize {
        self.capacity
    }

    /// How many offered events have been dropped because the queue was
    /// full.
    pub closed spec fn dropped_count(&self) -> u64 {
        self.dropped
    }

    /// The queue never holds more events than its capacity.
    pub open spec fn wf(&self) -> bool {
        self@.len() <= self.capacity()
    }

    /// An empty queue of the given capacity.
    pub fn new(capacity: usize) -> (q: EventQueue)
        ensures
            q@ == Seq::<Event>::empty(),
            q.capacity() == capacity,
            q.dropped_count() == 0,
            q.wf(),
    {
        let q = EventQueue { items: Vec::new(), capacity, dropped: 0 };
        proof {
            assert(q@ =~= Seq::<Event>::empty());
        }
        q
    }

    /// Offers one event: enqueued in FIFO position when there is room,
    /// else dropped and counted, reported as `QueueFull`. Never blocks
    /// and never retries.
    pub fn enqueue(&mut self, e: Event) -> (r: Result<(), CoreError>)
        requires
            old(self).dropped_count() < u64::MAX,
        ensures
            final(self).capacity() == old(self).capacity(),
            (final(self)@, final(self).dropped_count() as int) == offer(
                old(self)@,
                old(self).dropped_count() as int,
                old(self).capacity() as int,
                e,
            ),
            r == if old(self)@.len() < old(self).capacity() {
                Ok::<(), CoreError>(())
            } else {
                Err::<(), CoreError>(CoreError::QueueFull)
            },
            old(self).wf() ==> final(self).wf(),
    {
        if self.items.len() < self.capacity {
            self.items.push(e);
            Ok(())
        } else {
            self.dropped = self.dropped + 1;
            Err(CoreError::QueueFull)
        }
    }

    /// Removes and returns the oldest queued event, or nothing when the
    /// queue is empty.
    pub fn dequeue(&mut self) -> (r: Option<Event>)
        ensures
            final(self).capacity() == old(self).capacity(),
            final(self).dropped_count() == old(self).dropped_count(),
            old(self)@.len() == 0 ==> r == Option::<Event>::None && *final(self) == *old(self),
            old(self)@.len() > 0 ==> r == Option::Some(old(self)@[0]) && final(self)@ == old(
                self,
            )@.drop_first(),
            old(self).wf() ==> final(self).wf(),
    {
        if self.items.len() == 0 {
            None
        } else {
            let e = self.items.remove(0);
            Some(e)
        }
    }

    /// The number of events currently queued.
    pub fn len(&self) -> (n: usize)
        ensures
            n == self@.len(),
    {
        self.items.len()
    }

    /// How many offered events have been dropped so far.
    pub fn dropped_so_far(&self) -> (n: u64)
        ensures
            n == self.dropped_count(),
    {
        self.dropped
    }
}

/// Offering a batch that fits entirely appends it in order and drops
/// nothing.
pub proof fn lemma_offer_all_fits(contents: Seq<Event>, dropped: int, cap: int, es: Seq<Event>)
    requires
        contents.len() + es.len() <= cap,
    ensures
        offer_all(contents, dropped, cap, es) == (contents + es, dropped),
    decreases es.len(),
{
    if es.len() == 0 {
        assert(contents + es =~= contents);
    } else {
        let stepped = offer(contents, dropped, cap, es[0]);
        assert(stepped.0 =~= contents.push(es[0]));
        lemma_offer_all_fits(stepped.0, stepped.1, cap, es.drop_first());
        assert(contents.push(es[0]) + es.drop_first() =~= contents + es);
    }
}

/// Offering one batch after another is the same as offering their
/// concatenation.
pub proof fn lemma_offer_all_append(
    contents: Seq<Event>,
    dropped: int,
    cap: int,
    first: Seq<Event>,
    second: Seq<Event>,
)
    ensures
        offer_all(contents, dropped, cap, first + second) == ({
            let mid = offer_all(contents, dropped, cap, first);
            offer_all(mid.0, mid.1, cap, second)
        }),
    decreases first.len(),
{
    if first.len() == 0 {
        assert(first + second =~= second);
    } else {
        let both = first + second;
        assert(both[0] == first[0]);
        let stepped = offer(contents, dropped, cap, first[0]);
        assert(both.drop_first() =~= first.drop_first() + second);
        lemma_offer_all_append(stepped.0, stepped.1, cap, first.drop_first(), second);
    }
}

/// Law: offering `cap + 1` events to an empty queue of capacity `cap`
/// keeps exactly the first `cap` of them, in FIFO order, and drops
/// exactly one, raising the drop count by one. Repeated dequeues then
/// deliver those `cap` events oldest-first.
pub proof fn lemma_overflow_drops_exactly_one(dropped: int, cap: int, es: Seq<Event>)
    requires
        0 <= cap,
        es.len() == cap + 1,
    ensures
        offer_all(Seq::<Event>::empty(), dropped, cap, es).0 == es.take(cap),
        offer_all(Seq::<Event>::empty(), dropped, cap, es).1 == dropped + 1,
{
    let head = es.take(cap);
    let tail = seq![es[cap]];
    assert(es =~= head + tail);
    lemma_offer_all_append(Seq::<Event>::empty(), dropped, cap, head, tail);
    lemma_offer_all_fits(Seq::<Event>::empty(), dropped, cap, head);
    assert(Seq::<Event>::empty() + head =~= head);
    let over = offer(head, dropped, cap, es[cap]);
    assert(over.0 == head && over.1 == dropped + 1);
    assert(offer_all(over.0, over.1, cap, tail.drop_first()) == (head, dropped + 1));
}

} // verus!
