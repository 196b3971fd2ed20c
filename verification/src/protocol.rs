//! The synchronization protocol, verified over every interleaving.
//!
//! The concurrent queue lets a producer context and a consumer context run
//! simultaneously; its safety rests on the discipline that the `full` flag is
//! raised only after the slot is written, that the slot is read only after
//! `full` was observed raised, and that the writing lock serializes the
//! overwrite path against the occupied branch of `dequeue`/`peek`.
//!
//! This module states that discipline as a state machine whose steps are the
//! individual atomic actions of the four operations, exactly in the order the
//! executable code performs them, with a scheduler free to interleave the two
//! contexts arbitrarily. [`protocol_inv`] is proved inductive over every step,
//! and from it follow the safety theorems: the lock is held by at most one
//! side, no interleaving lets one side touch the slot while the other side is
//! about to, a read always finds a live value in the slot, and at rest the
//! `full` flag tells exactly whether a live value remains to be released.

use vstd::prelude::*;

verus! {

/// Where the producer context stands inside `enqueue` or `enqueue_overwrite`;
/// each non-idle phase names the atomic action the producer performs next.
pub enum ProducerPhase {
    /// Between operations.
    Idle,
    /// `enqueue` observed `full` lowered; next it writes the slot.
    EnqueueWrite,
    /// The slot is written; next it raises `full`.
    EnqueueRaise,
    /// `enqueue_overwrite` holds the lock; next it lowers `full`.
    OverwriteClear,
    /// `full` is lowered; next it writes the slot.
    OverwriteWrite,
    /// The slot is written; next it raises `full`.
    OverwriteRaise,
    /// `full` is raised; next it releases the lock.
    OverwriteRelease,
}

/// Where the consumer context stands inside `dequeue` or `peek`; each non-idle
/// phase names the atomic action the consumer performs next.
pub enum ConsumerPhase {
    /// Between operations.
    Idle,
    /// `dequeue` observed `full` raised; next it acquires the lock.
    DequeueWait,
    /// The lock is held; next it moves the value out of the slot.
    DequeueRead,
    /// The value is out; next it lowers `full`.
    DequeueClear,
    /// `full` is lowered; next it releases the lock.
    DequeueRelease,
    /// `peek` observed `full` raised; next it acquires the lock.
    PeekWait,
    /// The lock is held; next it duplicates the value in place.
    PeekRead,
    /// The value is duplicated; next it releases the lock.
    PeekRelease,
}

/// The shared state both contexts act on: the presence flag, the writing
/// lock's flag, whether the slot holds a live value, and each context's phase.
pub struct ProtocolState {
    pub full: bool,
    pub locked: bool,
    pub slot_live: bool,
    pub producer: ProducerPhase,
    pub consumer: ConsumerPhase,
}

/// One atomic action of either context. A schedule is any sequence of these.
pub enum ProtocolStep {
    /// `enqueue` loads `full` and branches: occupied rejects, vacant proceeds.
    EnqueueCheck,
    /// `enqueue` writes the slot (unsynchronized: `full` gates the reader out).
    EnqueueWrite,
    /// `enqueue` raises `full`, publishing the written value.
    EnqueueRaise,
    /// `enqueue_overwrite` acquires the writing lock; enabled only when free.
    OverwriteAcquire,
    /// `enqueue_overwrite` lowers `full` before touching the slot.
    OverwriteClear,
    /// `enqueue_overwrite` writes the slot under the lock.
    OverwriteWrite,
    /// `enqueue_overwrite` raises `full` again.
    OverwriteRaise,
    /// `enqueue_overwrite` releases the lock.
    OverwriteRelease,
    /// `dequeue` loads `full` and branches: vacant returns nothing at once.
    DequeueCheck,
    /// `dequeue` acquires the writing lock; enabled only when free.
    DequeueAcquire,
    /// `dequeue` moves the value out of the slot, leaving it dead.
    DequeueRead,
    /// `dequeue` lowers `full`.
    DequeueClear,
    /// `dequeue` releases the lock.
    DequeueRelease,
    /// `peek` loads `full` and branches: vacant returns nothing at once.
    PeekCheck,
    /// `peek` acquires the writing lock; enabled only when free.
    PeekAcquire,
    /// `peek` duplicates the value in place; the slot stays live.
    PeekRead,
    /// `peek` releases the lock.
    PeekRelease,
}

/// The queue as created: vacant, unlocked, both contexts between operations.
pub open spec fn protocol_init(s: ProtocolState) -> bool {
    &&& !s.full
    &&& !s.locked
    &&& !s.slot_live
    &&& s.producer is Idle
    &&& s.consumer is Idle
}

/// The transition relation: `step` takes `pre` to `post`.
pub open spec fn protocol_step(pre: ProtocolState, post: ProtocolState, step: ProtocolStep) -> bool {
    match step {
        ProtocolStep::EnqueueCheck => {
            &&& pre.producer is Idle
            &&& post == (ProtocolState {
                producer: if pre.full { ProducerPhase::Idle } else { ProducerPhase::EnqueueWrite },
                ..pre
            })
        },
        ProtocolStep::EnqueueWrite => {
            &&& pre.producer is EnqueueWrite
            &&& post == (ProtocolState { slot_live: true, producer: ProducerPhase::EnqueueRaise, ..pre })
        },
        ProtocolStep::EnqueueRaise => {
            &&& pre.producer is EnqueueRaise
            &&& post == (ProtocolState { full: true, producer: ProducerPhase::Idle, ..pre })
        },
        ProtocolStep::OverwriteAcquire => {
            &&& pre.producer is Idle
            &&& !pre.locked
            &&& post == (ProtocolState { locked: true, producer: ProducerPhase::OverwriteClear, ..pre })
        },
        ProtocolStep::OverwriteClear => {
            &&& pre.producer is OverwriteClear
            &&& post == (ProtocolState { full: false, producer: ProducerPhase::OverwriteWrite, ..pre })
        },
        ProtocolStep::OverwriteWrite => {
            &&& pre.producer is OverwriteWrite
            &&& post == (ProtocolState { slot_live: true, producer: ProducerPhase::OverwriteRaise, ..pre })
        },
        ProtocolStep::OverwriteRaise => {
            &&& pre.producer is OverwriteRaise
            &&& post == (ProtocolState { full: true, producer: ProducerPhase::OverwriteRelease, ..pre })
        },
        ProtocolStep::OverwriteRelease => {
            &&& pre.producer is OverwriteRelease
            &&& post == (ProtocolState { locked: false, producer: ProducerPhase::Idle, ..pre })
        },
        ProtocolStep::DequeueCheck => {
            &&& pre.consumer is Idle
            &&& post == (ProtocolState {
                consumer: if pre.full { ConsumerPhase::DequeueWait } else { ConsumerPhase::Idle },
                ..pre
            })
        },
        ProtocolStep::DequeueAcquire => {
            &&& pre.consumer is DequeueWait
            &&& !pre.locked
            &&& post == (ProtocolState { locked: true, consumer: ConsumerPhase::DequeueRead, ..pre })
        },
        ProtocolStep::DequeueRead => {
            &&& pre.consumer is DequeueRead
            &&& post == (ProtocolState { slot_live: false, consumer: ConsumerPhase::DequeueClear, ..pre })
        },
        ProtocolStep::DequeueClear => {
            &&& pre.consumer is DequeueClear
            &&& post == (ProtocolState { full: false, consumer: ConsumerPhase::DequeueRelease, ..pre })
        },
        ProtocolStep::DequeueRelease => {
            &&& pre.consumer is DequeueRelease
            &&& post == (ProtocolState { locked: false, consumer: ConsumerPhase::Idle, ..pre })
        },
        ProtocolStep::PeekCheck => {
            &&& pre.consumer is Idle
            &&& post == (ProtocolState {
                consumer: if pre.full { ConsumerPhase::PeekWait } else { ConsumerPhase::Idle },
                ..pre
            })
        },
        ProtocolStep::PeekAcquire => {
            &&& pre.consumer is PeekWait
            &&& !pre.locked
            &&& post == (ProtocolState { locked: true, consumer: ConsumerPhase::PeekRead, ..pre })
        },
        ProtocolStep::PeekRead => {
            &&& pre.consumer is PeekRead
            &&& post == (ProtocolState { consumer: ConsumerPhase::PeekRelease, ..pre })
        },
        ProtocolStep::PeekRelease => {
            &&& pre.consumer is PeekRelease
            &&& post == (ProtocolState { locked: false, consumer: ConsumerPhase::Idle, ..pre })
        },
    }
}

/// The producer holds the writing lock throughout the overwrite path.
pub open spec fn producer_holds_lock(s: ProtocolState) -> bool {
    ||| s.producer is OverwriteClear
    ||| s.producer is OverwriteWrite
    ||| s.producer is OverwriteRaise
    ||| s.producer is OverwriteRelease
}

/// The consumer holds the writing lock throughout the occupied read path.
pub open spec fn consumer_holds_lock(s: ProtocolState) -> bool {
    ||| s.consumer is DequeueRead
    ||| s.consumer is DequeueClear
    ||| s.consumer is DequeueRelease
    ||| s.consumer is PeekRead
    ||| s.consumer is PeekRelease
}

/// The producer's next action accesses the slot.
pub open spec fn producer_touches_slot(s: ProtocolState) -> bool {
    s.producer is EnqueueWrite || s.producer is OverwriteWrite
}

/// The consumer's next action accesses the slot.
pub open spec fn consumer_touches_slot(s: ProtocolState) -> bool {
    s.consumer is DequeueRead || s.consumer is PeekRead
}

/// The inductive invariant of the protocol. The lock flag agrees with exactly
/// one holder; `full` raised means the slot is live, except for the instant
/// where the consumer has moved the value out but not yet lowered the flag; a
/// live slot with the flag lowered occurs only in a producer mid-write, after
/// the slot is (or stays) live and before the raise; a producer inside
/// `enqueue` keeps the flag lowered until its final raise; a consumer past its
/// `full` check saw the flag raised, or the overwrite that transiently lowered
/// it still holds the lock and will raise it again before releasing.
pub open spec fn protocol_inv(s: ProtocolState) -> bool {
    &&& s.locked == (producer_holds_lock(s) || consumer_holds_lock(s))
    &&& !(producer_holds_lock(s) && consumer_holds_lock(s))
    &&& s.full ==> (s.slot_live || s.consumer is DequeueClear)
    &&& (s.producer is EnqueueWrite || s.producer is EnqueueRaise) ==> !s.full
    &&& s.producer is EnqueueRaise ==> s.slot_live
    &&& s.producer is OverwriteRaise ==> s.slot_live
    &&& s.producer is OverwriteRelease ==> s.full && s.slot_live
    &&& (s.consumer is DequeueWait || s.consumer is PeekWait) ==> (s.full || producer_holds_lock(s))
    &&& (s.consumer is DequeueRead || s.consumer is PeekRead) ==> s.full && s.slot_live
    &&& s.consumer is DequeueClear ==> s.full && !s.slot_live
    &&& (s.slot_live && !s.full) ==> (s.producer is EnqueueRaise || s.producer is OverwriteWrite
        || s.producer is OverwriteRaise)
}

/// A freshly created queue satisfies the invariant.
pub proof fn lemma_protocol_init(s: ProtocolState)
    requires
        protocol_init(s),
    ensures
        protocol_inv(s),
{
}

/// Every atomic step of either context, from any state satisfying the
/// invariant, leads to a state satisfying it again: the invariant holds along
/// every interleaving of the two contexts.
pub proof fn lemma_protocol_inv_preserved(pre: ProtocolState, post: ProtocolState, step: ProtocolStep)
    requires
        protocol_inv(pre),
        protocol_step(pre, post, step),
    ensures
        protocol_inv(post),
{
}

/// Mutual exclusion: the lock flag is raised exactly while one side holds the
/// lock, and the two sides never hold it together.
pub proof fn lemma_mutual_exclusion(s: ProtocolState)
    requires
        protocol_inv(s),
    ensures
        s.locked == (producer_holds_lock(s) || consumer_holds_lock(s)),
        !(producer_holds_lock(s) && consumer_holds_lock(s)),
{
}

/// Freedom from data races on the slot: no reachable state has one context
/// about to write the slot while the other is about to read or write it, so no
/// interleaving of the operations produces a torn or racing slot access.
pub proof fn lemma_no_slot_race(s: ProtocolState)
    requires
        protocol_inv(s),
    ensures
        !(producer_touches_slot(s) && consumer_touches_slot(s)),
{
}

/// Reads never see uninitialized storage: whenever the consumer is about to
/// read the slot, the slot holds a live value.
pub proof fn lemma_reads_find_live_value(s: ProtocolState)
    requires
        protocol_inv(s),
        consumer_touches_slot(s),
    ensures
        s.slot_live,
{
}

/// A trace: a run of the protocol, `states[i]` stepping to `states[i + 1]` by
/// the scheduler's choice `schedule[i]`. Any interleaving of any number of
/// `enqueue`/`enqueue_overwrite` calls on one side with `dequeue`/`peek` calls
/// on the other is such a schedule.
pub open spec fn protocol_trace(states: Seq<ProtocolState>, schedule: Seq<ProtocolStep>) -> bool {
    &&& states.len() == schedule.len() + 1
    &&& forall|i: int|
        0 <= i < schedule.len() ==> #[trigger] protocol_step(states[i], states[i + 1], schedule[i])
}

/// Safety along every schedule: in a run that starts from a fresh queue, every
/// state — under any interleaving of the two contexts, of any length —
/// satisfies the invariant, so at no point do the two sides race on the slot,
/// and every read finds a live value.
pub proof fn lemma_every_schedule_is_safe(
    states: Seq<ProtocolState>,
    schedule: Seq<ProtocolStep>,
    i: int,
)
    requires
        protocol_trace(states, schedule),
        protocol_init(states[0]),
        0 <= i < states.len(),
    ensures
        protocol_inv(states[i]),
        !(producer_touches_slot(states[i]) && consumer_touches_slot(states[i])),
        consumer_touches_slot(states[i]) ==> states[i].slot_live,
    decreases i,
{
    if i == 0 {
        lemma_protocol_init(states[0]);
    } else {
        lemma_every_schedule_is_safe(states, schedule, i - 1);
        assert(protocol_step(states[i - 1], states[(i - 1) + 1], schedule[i - 1]));
        lemma_protocol_inv_preserved(states[i - 1], states[i], schedule[i - 1]);
    }
}

/// At rest (both contexts between operations) the lock is free and the `full`
/// flag says exactly whether a live value remains in the slot — so destruction,
/// which drops the value precisely when the flag is raised, drops a live value
/// exactly once and never touches dead storage.
pub proof fn lemma_at_rest_flag_matches_slot(s: ProtocolState)
    requires
        protocol_inv(s),
        s.producer is Idle,
        s.consumer is Idle,
    ensures
        !s.locked,
        s.full == s.slot_live,
{
}

} // verus!
