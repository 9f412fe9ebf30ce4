//! A bounded, ordered, first-in-first-out event queue.
//!
//! This is the crate's model of the delivery channel between callback sinks
//! and a consumer: capacity is fixed at construction, an offer to a full or
//! closed queue is dropped rather than blocking (delivery is best-effort),
//! and items come out in exactly the order they went in. The cross-thread
//! transport used by the live sinks follows the same policy.

use vstd::prelude::*;

verus! {

/// A bounded FIFO queue with a close flag.
///
/// Once closed, the queue accepts no further items; items already queued
/// can still be drained, so a consumer sees everything that was delivered
/// before the close.
pub struct EventQueue<T> {
    items: Vec<T>,
    capacity: usize,
    closed: bool,
}

impl<T> EventQueue<T> {
    /// The items currently queued, oldest first.
    pub closed spec fn view(&self) -> Seq<T> {
        self.items@
    }

    pub closed spec fn spec_capacity(&self) -> nat {
        self.capacity as nat
    }

    pub closed spec fn spec_closed(&self) -> bool {
        self.closed
    }

    /// Every queue holds at most its capacity, and capacity is positive.
    pub closed spec fn wf(&self) -> bool {
        self.items@.len() <= self.capacity && self.capacity >= 1
    }

    /// What the queue holds after an item is offered: appended when there
    /// is room and the queue is open, unchanged otherwise.
    pub open spec fn spec_offer(contents: Seq<T>, capacity: nat, closed: bool, item: T) -> Seq<T> {
        if !closed && contents.len() < capacity {
            contents.push(item)
        } else {
            contents
        }
    }

    /// Whether an offered item is accepted.
    pub open spec fn spec_accepts(contents: Seq<T>, capacity: nat, closed: bool) -> bool {
        !closed && contents.len() < capacity
    }

    pub fn new(capacity: usize) -> (q: EventQueue<T>)
        requires
            capacity >= 1,
        ensures
            q.wf(),
            q@ == Seq::<T>::empty(),
            q.spec_capacity() == capacity,
            !q.spec_closed(),
    {
        EventQueue { items: Vec::new(), capacity, closed: false }
    }

    /// Offers one item; never blocks. Returns whether it was queued.
    pub fn offer(&mut self, item: T) -> (delivered: bool)
        requires
            old(self).wf(),
        ensures
            final(self).wf(),
            delivered == Self::spec_accepts(old(self)@, old(self).spec_capacity(), old(self).spec_closed()),
            final(self)@ == Self::spec_offer(old(self)@, old(self).spec_capacity(), old(self).spec_closed(), item),
            final(self).spec_capacity() == old(self).spec_capacity(),
            final(self).spec_closed() == old(self).spec_closed(),
    {
        if !self.closed && self.items.len() < self.capacity {
            self.items.push(item);
            true
        } else {
            false
        }
    }

    /// Takes the oldest item, if any. Draining still works after a close.
    pub fn take(&mut self) -> (item: Option<T>)
        requires
            old(self).wf(),
        ensures
            final(self).wf(),
            old(self)@.len() == 0 ==> item is None && final(self)@ == old(self)@,
            old(self)@.len() > 0 ==> item == Some(old(self)@[0])
                && final(self)@ == old(self)@.subrange(1, old(self)@.len() as int),
            final(self).spec_capacity() == old(self).spec_capacity(),
            final(self).spec_closed() == old(self).spec_closed(),
    {
        if self.items.len() == 0 {
            None
        } else {
            Some(self.items.remove(0))
        }
    }

    /// Closes the queue: later offers are dropped, queued items remain.
    pub fn close(&mut self)
        requires
            old(self).wf(),
        ensures
            final(self).wf(),
            final(self)@ == old(self)@,
            final(self).spec_capacity() == old(self).spec_capacity(),
            final(self).spec_closed(),
    {
        self.closed = true;
    }

    /// Whether the stream has ended cleanly: closed and fully drained.
    /// Until then a consumer keeps pulling; afterwards no item will ever
    /// come.
    pub fn is_finished(&self) -> (finished: bool)
        ensures
            finished == (self.spec_closed() && self@.len() == 0),
    {
        self.closed && self.items.len() == 0
    }

    pub fn len(&self) -> (n: usize)
        ensures
            n == self@.len(),
    {
        self.items.len()
    }

    pub fn is_closed(&self) -> (c: bool)
        ensures
            c == self.spec_closed(),
    {
        self.closed
    }

    pub fn capacity(&self) -> (c: usize)
        ensures
            c == self.spec_capacity(),
    {
        self.capacity
    }
}

/// Items stay in arrival order: offering `first` and then `second` to a
/// queue with room for both appends them in exactly that order.
pub proof fn lemma_offers_keep_arrival_order<T>(
    contents: Seq<T>,
    capacity: nat,
    first: T,
    second: T,
)
    requires
        contents.len() + 2 <= capacity,
    ensures
        ({
            let after_first = EventQueue::<T>::spec_offer(contents, capacity, false, first);
            let after_second = EventQueue::<T>::spec_offer(after_first, capacity, false, second);
            after_second == contents.push(first).push(second)
        }),
{
}

} // verus!
