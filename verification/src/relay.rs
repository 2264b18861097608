//! Relay primitives: how the network worker hands values to the workers
//! that blink the light and draw the text.
//!
//! Neither primitive ever blocks. The `LatestSlot` keeps only the newest
//! value; the `Mailbox` keeps up to `MAILBOX_CAPACITY` values in the order
//! in which they came and turns away what does not fit. What each operation
//! does is given by a function on the primitive's mathematical value, so
//! that what holds of runs of operations can be stated and proved.

use vstd::prelude::*;
use std::collections::VecDeque;

verus! {

/// The slot after `v` was written into it: it holds `v`, whatever it held.
pub open spec fn after_write<T>(slot: Option<T>, v: T) -> Option<T> {
    Some(v)
}

/// What taking from the slot returns: the value it holds, if any.
pub open spec fn taken<T>(slot: Option<T>) -> Option<T> {
    slot
}

/// The slot after a take: empty.
pub open spec fn after_take<T>(slot: Option<T>) -> Option<T> {
    None
}

/// The slot after every value of `values` was written into it, in order.
pub open spec fn after_writes<T>(slot: Option<T>, values: Seq<T>) -> Option<T>
    decreases values.len(),
{
    if values.len() == 0 {
        slot
    } else {
        after_write(after_writes(slot, values.drop_last()), values.last())
    }
}

/// A slot that holds at most one value: the newest one written and not yet
/// taken.
pub struct LatestSlot<T> {
    value: Option<T>,
}

impl<T> View for LatestSlot<T> {
    type V = Option<T>;

    closed spec fn view(&self) -> Option<T> {
        self.value
    }
}

impl<T> LatestSlot<T> {
    /// An empty slot.
    pub fn new() -> (slot: Self)
        ensures
            slot@ is None,
    {
        LatestSlot { value: None }
    }

    /// Stores `v`, in place of a value that was not taken.
    pub fn write(&mut self, v: T)
        ensures
            final(self)@ == after_write(old(self)@, v),
    {
        self.value = Some(v);
    }

    /// Removes and returns the stored value, if there is one.
    pub fn take(&mut self) -> (value: Option<T>)
        ensures
            value == taken(old(self)@),
            final(self)@ == after_take(old(self)@),
    {
        self.value.take()
    }
}

/// After three writes and no read, a take returns the third value, and a
/// take right after that returns nothing.
pub proof fn lemma_slot_keeps_latest<T>(slot: Option<T>, w1: T, w2: T, w3: T)
    ensures
        taken(after_write(after_write(after_write(slot, w1), w2), w3)) == Some(w3),
        taken(after_take(after_write(after_write(after_write(slot, w1), w2), w3))) is None,
{
}

/// After any run of writes, a take returns the last value written; and a
/// take that follows a take with no write in between returns nothing.
pub proof fn lemma_slot_take<T>(slot: Option<T>, values: Seq<T>)
    ensures
        values.len() > 0 ==> taken(after_writes(slot, values)) == Some(values.last()),
        taken(after_take(slot)) is None,
{
}

/// How many values a mailbox holds at most.
pub const MAILBOX_CAPACITY: usize = 3;

/// Whether a mailbox that holds `queue` takes one more value.
pub open spec fn accepts<T>(queue: Seq<T>) -> bool {
    queue.len() < MAILBOX_CAPACITY
}

/// The mailbox after an attempt to send `v`: `v` is last in line if there
/// was room, and turned away if not.
pub open spec fn after_send<T>(queue: Seq<T>, v: T) -> Seq<T> {
    if accepts(queue) {
        queue.push(v)
    } else {
        queue
    }
}

/// What receiving from the mailbox returns: the oldest value, if any.
pub open spec fn received<T>(queue: Seq<T>) -> Option<T> {
    if queue.len() > 0 {
        Some(queue[0])
    } else {
        None
    }
}

/// The mailbox after a receive: without its oldest value.
pub open spec fn after_receive<T>(queue: Seq<T>) -> Seq<T> {
    if queue.len() > 0 {
        queue.drop_first()
    } else {
        queue
    }
}

/// A queue of at most `MAILBOX_CAPACITY` values, first in, first out.
pub struct Mailbox<T> {
    items: VecDeque<T>,
}

impl<T> View for Mailbox<T> {
    type V = Seq<T>;

    closed spec fn view(&self) -> Seq<T> {
        self.items@
    }
}

impl<T> Mailbox<T> {
    /// The mailbox never holds more than its capacity.
    #[verifier::type_invariant]
    spec fn bounded(self) -> bool {
        self.items@.len() <= MAILBOX_CAPACITY
    }

    /// An empty mailbox.
    pub fn new() -> (mailbox: Self)
        ensures
            mailbox@ == Seq::<T>::empty(),
    {
        Mailbox { items: VecDeque::new() }
    }

    /// How many values wait in the mailbox; never more than
    /// `MAILBOX_CAPACITY`.
    pub fn len(&self) -> (n: usize)
        ensures
            n == self@.len(),
            n <= MAILBOX_CAPACITY,
    {
        proof {
            use_type_invariant(self);
        }
        self.items.len()
    }

    /// Puts `v` last in line if fewer than `MAILBOX_CAPACITY` values wait;
    /// otherwise hands `v` back at once and changes nothing.
    pub fn try_send(&mut self, v: T) -> (sent: Result<(), T>)
        ensures
            final(self)@ == after_send(old(self)@, v),
            match sent {
                Ok(()) => accepts(old(self)@),
                Err(back) => !accepts(old(self)@) && back == v,
            },
    {
        if self.items.len() < MAILBOX_CAPACITY {
            // The queue is moved out while it changes, and put back by one
            // assignment, at which its bound is checked.
            let mut items = VecDeque::new();
            core::mem::swap(&mut self.items, &mut items);
            items.push_back(v);
            self.items = items;
            Ok(())
        } else {
            Err(v)
        }
    }

    /// Removes and returns the value that has waited longest, if any.
    pub fn try_receive(&mut self) -> (value: Option<T>)
        ensures
            value == received(old(self)@),
            final(self)@ == after_receive(old(self)@),
    {
        proof {
            use_type_invariant(&*self);
        }
        let mut items = VecDeque::new();
        core::mem::swap(&mut self.items, &mut items);
        let value = items.pop_front();
        self.items = items;
        value
    }
}

/// Into an empty mailbox three sends go and a fourth does not; three
/// receives then return the three values in the order in which they were
/// sent, and a fourth returns nothing.
pub proof fn lemma_mailbox_holds_three<T>(v1: T, v2: T, v3: T, v4: T)
    ensures
        ({
            let q0 = Seq::<T>::empty();
            let q1 = after_send(q0, v1);
            let q2 = after_send(q1, v2);
            let q3 = after_send(q2, v3);
            let q4 = after_send(q3, v4);
            let r1 = after_receive(q4);
            let r2 = after_receive(r1);
            let r3 = after_receive(r2);
            &&& accepts(q0) && accepts(q1) && accepts(q2)
            &&& !accepts(q3)
            &&& q4 == q3
            &&& received(q4) == Some(v1)
            &&& received(r1) == Some(v2)
            &&& received(r2) == Some(v3)
            &&& received(r3) is None
        }),
{
}

/// First in, first out: a value that was taken in stays behind all that
/// waited before it, and a mailbox within its capacity stays within it.
pub proof fn lemma_mailbox_is_fifo<T>(queue: Seq<T>, v: T)
    requires
        queue.len() <= MAILBOX_CAPACITY,
    ensures
        after_send(queue, v).len() <= MAILBOX_CAPACITY,
        after_receive(queue).len() <= MAILBOX_CAPACITY,
        queue.len() > 0 ==> received(after_send(queue, v)) == received(queue),
        queue.len() > 0 && accepts(queue) ==> after_receive(after_send(queue, v)) == after_send(
            after_receive(queue),
            v,
        ),
        queue.len() == 0 ==> received(after_send(queue, v)) == Some(v),
{
}

} // verus!
