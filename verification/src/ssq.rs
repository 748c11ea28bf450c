//! A queue with room for exactly one value.
//!
//! It hands a resume handle from the code that suspends to the interrupt that
//! resumes. The slot is either empty or holds one live value; the tag of the
//! `Option` is the "full" flag, so the two can never disagree.

use vstd::prelude::*;

verus! {

/// Single-slot queue. Its view is the content of the slot.
pub struct SingleSlotQueue<T> {
    slot: Option<T>,
}

impl<T> View for SingleSlotQueue<T> {
    type V = Option<T>;

    closed spec fn view(&self) -> Option<T> {
        self.slot
    }
}

/// The slot after offering `val` to a queue whose slot is `slot`.
pub open spec fn slot_after_enqueue<T>(slot: Option<T>, val: T) -> Option<T> {
    if slot is None {
        Some(val)
    } else {
        slot
    }
}

/// What `enqueue` hands back: nothing if the value went in, else the value.
pub open spec fn rejected_by_enqueue<T>(slot: Option<T>, val: T) -> Option<T> {
    if slot is None {
        None
    } else {
        Some(val)
    }
}

impl<T> SingleSlotQueue<T> {
    /// An empty queue.
    pub fn new() -> (q: Self)
        ensures
            q@ is None,
    {
        SingleSlotQueue { slot: None }
    }

    /// Whether the slot is empty.
    pub fn is_empty(&self) -> (empty: bool)
        ensures
            empty == (self@ is None),
    {
        self.slot.is_none()
    }

    /// Stores `val` if the slot is empty and returns `None`. If the slot is
    /// taken, the queue is left as it was and `val` comes back.
    pub fn enqueue(&mut self, val: T) -> (rejected: Option<T>)
        ensures
            final(self)@ == slot_after_enqueue(old(self)@, val),
            rejected == rejected_by_enqueue(old(self)@, val),
    {
        if self.slot.is_none() {
            self.slot = Some(val);
            None
        } else {
            Some(val)
        }
    }

    /// Takes the value out of the slot, if there is one.
    pub fn dequeue(&mut self) -> (val: Option<T>)
        ensures
            val == taken_by_dequeue(old(self)@),
            final(self)@ == slot_after_dequeue(old(self)@),
    {
        self.slot.take()
    }
}

/// What `dequeue` takes out of a queue whose slot is `slot`.
pub open spec fn taken_by_dequeue<T>(slot: Option<T>) -> Option<T> {
    slot
}

/// The slot after a `dequeue`.
pub open spec fn slot_after_dequeue<T>(slot: Option<T>) -> Option<T> {
    None
}

/// A value that an empty queue accepts is what the next `dequeue` takes
/// out, the queue is empty afterwards, and a further `dequeue` takes out
/// nothing: the value comes out exactly once.
pub proof fn lemma_enqueue_then_dequeue<T>(slot: Option<T>, x: T)
    requires
        slot is None,
    ensures
        rejected_by_enqueue(slot, x) is None,
        taken_by_dequeue(slot_after_enqueue(slot, x)) == Some(x),
        slot_after_dequeue(slot_after_enqueue(slot, x)) is None,
        taken_by_dequeue(slot_after_dequeue(slot_after_enqueue(slot, x))) is None,
{
}

/// A full queue turns every offer down and keeps what it holds, however
/// often it is tried.
pub proof fn lemma_full_queue_rejects<T>(slot: Option<T>, y: T)
    requires
        slot is Some,
    ensures
        rejected_by_enqueue(slot, y) == Some(y),
        slot_after_enqueue(slot, y) == slot,
{
}

} // verus!
