//! The queue core and its two handles.
//!
//! The core owns the slot, a `full` presence flag, and a spin lock that
//! serializes the overwrite path against reads. The abstract behaviour of each
//! operation is captured by the transition functions below, stated over the
//! queue's view (the optional value it holds); every operation's contract is
//! expressed through them.

use core::marker::PhantomData;
use vstd::prelude::*;
use crate::lock::LightLock;

verus! {

/// What `enqueue` hands back: the rejected value when the slot is occupied,
/// nothing when the value was accepted.
pub open spec fn enqueue_result<T>(s: Option<T>, v: T) -> Option<T> {
    if s is Some {
        Some(v)
    } else {
        None
    }
}

/// The slot after `enqueue`: unchanged when occupied, the new value otherwise.
pub open spec fn enqueue_state<T>(s: Option<T>, v: T) -> Option<T> {
    if s is Some {
        s
    } else {
        Some(v)
    }
}

/// The slot after `enqueue_overwrite`: always the new value.
pub open spec fn overwrite_state<T>(s: Option<T>, v: T) -> Option<T> {
    Some(v)
}

/// What `dequeue` hands back: whatever the slot held.
pub open spec fn dequeue_result<T>(s: Option<T>) -> Option<T> {
    s
}

/// The slot after `dequeue`: always empty.
pub open spec fn dequeue_state<T>(s: Option<T>) -> Option<T> {
    None
}

/// What `peek` hands back: whatever the slot holds, left in place.
pub open spec fn peek_result<T>(s: Option<T>) -> Option<T> {
    s
}

/// Single slot queue.
///
/// The slot holds at most one value; `full` records whether it does, and the
/// `writing` lock is taken by `enqueue_overwrite` and by the occupied branch of
/// `dequeue`/`peek`, so that an overwrite never tears a concurrent read.
pub struct SingleSlotQueue<T> {
    full: bool,
    writing: LightLock,
    val: Option<T>,
}

impl<T> View for SingleSlotQueue<T> {
    type V = Option<T>;

    closed spec fn view(&self) -> Option<T> {
        self.val
    }
}

impl<T> SingleSlotQueue<T> {
    /// Well-formedness: the `full` flag agrees with the slot's occupancy, and
    /// the lock is free between operations.
    pub closed spec fn wf(&self) -> bool {
        &&& self.full == self.val is Some
        &&& !self.writing.is_locked()
    }

    /// An empty queue: slot vacant, flag lowered, lock free.
    pub fn new() -> (r: SingleSlotQueue<T>)
        ensures
            r.wf(),
            r@ is None,
    {
        SingleSlotQueue { full: false, writing: LightLock::new(), val: None }
    }

    /// Hand out the queue's two role handles: one read side, one write side.
    pub fn split(&mut self) -> (r: (Consumer<T>, Producer<T>))
        ensures
            *final(self) == *old(self),
    {
        (Consumer { role: PhantomData }, Producer { role: PhantomData })
    }
}

/// Read handle to a single slot queue: only a `Consumer` may take values out.
pub struct Consumer<T> {
    role: PhantomData<T>,
}

impl<T> Consumer<T> {
    /// Take the value out of the queue, leaving it empty; hands back nothing
    /// when the queue was already empty.
    pub fn dequeue(&mut self, q: &mut SingleSlotQueue<T>) -> (r: Option<T>)
        requires
            old(q).wf(),
        ensures
            final(q).wf(),
            r == dequeue_result(old(q)@),
            final(q)@ == dequeue_state::<T>(old(q)@),
    {
        if q.full {
            let guard = q.writing.lock();
            let r = q.val.take();
            q.full = false;
            q.writing.unlock(guard);
            r
        } else {
            None
        }
    }

    /// Check if there is no value in the queue.
    pub fn is_empty(&self, q: &SingleSlotQueue<T>) -> (r: bool)
        requires
            q.wf(),
        ensures
            r == (q@ is None),
    {
        !q.full
    }
}

impl<T: Copy> Consumer<T> {
    /// Read the value without taking it out: available only for values that
    /// can be duplicated in place.
    pub fn peek(&mut self, q: &mut SingleSlotQueue<T>) -> (r: Option<T>)
        requires
            old(q).wf(),
        ensures
            final(q).wf(),
            final(q)@ == old(q)@,
            r == peek_result(old(q)@),
    {
        if q.full {
            let guard = q.writing.lock();
            let r = q.val;
            q.writing.unlock(guard);
            r
        } else {
            None
        }
    }
}

/// Write handle to a single slot queue: only a `Producer` may store values.
pub struct Producer<T> {
    role: PhantomData<T>,
}

impl<T> Producer<T> {
    /// Store a value if the slot is vacant. When the queue already holds a
    /// value, the offered value is handed back unchanged and the queue is left
    /// untouched.
    pub fn enqueue(&mut self, q: &mut SingleSlotQueue<T>, val: T) -> (r: Option<T>)
        requires
            old(q).wf(),
        ensures
            final(q).wf(),
            r == enqueue_result(old(q)@, val),
            final(q)@ == enqueue_state(old(q)@, val),
    {
        if !q.full {
            q.val = Some(val);
            q.full = true;
            None
        } else {
            Some(val)
        }
    }

    /// Store a value unconditionally, replacing any value the slot held. The
    /// whole operation runs under the `writing` lock so a concurrent read can
    /// never observe a half-replaced slot.
    pub fn enqueue_overwrite(&mut self, q: &mut SingleSlotQueue<T>, val: T)
        requires
            old(q).wf(),
        ensures
            final(q).wf(),
            final(q)@ == overwrite_state(old(q)@, val),
    {
        let guard = q.writing.lock();
        q.full = false;
        q.val = Some(val);
        q.full = true;
        q.writing.unlock(guard);
    }

    /// Check if there is no value in the queue.
    pub fn is_empty(&self, q: &SingleSlotQueue<T>) -> (r: bool)
        requires
            q.wf(),
        ensures
            r == (q@ is None),
    {
        !q.full
    }
}

} // verus!
