//! Laws relating the queue's operations, stated over the abstract transition
//! functions that the operations' own contracts use.

use vstd::prelude::*;
use crate::queue::{
    dequeue_result, dequeue_state, enqueue_result, enqueue_state, overwrite_state, peek_result,
};

verus! {

/// No loss under exclusive access: whenever `enqueue` accepts a value (hands
/// nothing back), the next `dequeue` returns exactly that value, and leaves the
/// queue empty.
pub proof fn lemma_enqueue_then_dequeue<T>(s: Option<T>, v: T)
    requires
        enqueue_result(s, v) is None,
    ensures
        dequeue_result(enqueue_state(s, v)) == Some(v),
        dequeue_state::<T>(enqueue_state(s, v)) is None,
{
}

/// Rejection preserves the value: `enqueue` on an occupied slot hands the
/// offered value back unchanged and leaves the slot's prior value untouched.
pub proof fn lemma_rejection_preserves_value<T>(s: Option<T>, v: T)
    requires
        s is Some,
    ensures
        enqueue_result(s, v) == Some(v),
        enqueue_state(s, v) == s,
{
}

/// Overwrite always succeeds: whatever the slot held, after
/// `enqueue_overwrite` it holds the new value, which the next `dequeue`
/// observes.
pub proof fn lemma_overwrite_always_lands<T>(s: Option<T>, v: T)
    ensures
        overwrite_state(s, v) == Some(v),
        dequeue_result(overwrite_state(s, v)) == Some(v),
{
}

/// Empty reads are stable: on an empty queue, `dequeue` and `peek` return
/// nothing and leave the queue empty, so repeated reads keep returning nothing
/// until an enqueue occurs.
pub proof fn lemma_empty_reads_stable<T>(s: Option<T>)
    requires
        s is None,
    ensures
        dequeue_result(s) is None,
        peek_result(s) is None,
        dequeue_state::<T>(s) is None,
{
}

/// Peek is non-destructive: `peek` leaves the queue's contents unchanged (its
/// own contract states the slot is untouched), so after a `peek` returned a
/// value, a second `peek` returns the same value, and so does the following
/// `dequeue`.
pub proof fn lemma_peek_nondestructive<T>(s: Option<T>, v: T)
    requires
        peek_result(s) == Some(v),
    ensures
        peek_result(s) == Some(v),
        dequeue_result(s) == Some(v),
{
}

} // verus!
