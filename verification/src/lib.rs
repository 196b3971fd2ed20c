//! A single-producer, single-consumer, single-slot queue for message passing.
//!
//! The queue holds at most one value. A [`Producer`] stores a value with
//! [`enqueue`](Producer::enqueue) (rejected and handed back when the slot is
//! occupied) or [`enqueue_overwrite`](Producer::enqueue_overwrite) (always
//! succeeds, replacing any previous value). A [`Consumer`] takes the value out
//! with [`dequeue`](Consumer::dequeue) or inspects it with
//! [`peek`](Consumer::peek). Every operation is verified against the abstract
//! transition functions stated beside the queue, and the laws relating the
//! operations are proved as public proof functions.
//!
//! The design is meant to survive a producer context and a consumer context
//! running simultaneously: the `full` flag is raised only after the slot is
//! written, the slot is read only after the flag was observed raised, and a
//! spin lock serializes the overwrite path against the occupied read path.
//! The protocol module states that discipline as a state machine over the
//! individual atomic actions and proves it safe under every interleaving: the
//! lock has at most one holder, the two sides never race on the slot, and a
//! read always finds a live value.

mod lock;
mod queue;
mod laws;
mod protocol;

pub use queue::{Consumer, Producer, SingleSlotQueue};
pub use queue::{dequeue_result, dequeue_state, enqueue_result, enqueue_state, overwrite_state, peek_result};
pub use laws::{
    lemma_enqueue_then_dequeue, lemma_rejection_preserves_value, lemma_overwrite_always_lands,
    lemma_empty_reads_stable, lemma_peek_nondestructive,
};
pub use protocol::{
    ConsumerPhase, ProducerPhase, ProtocolState, ProtocolStep, consumer_holds_lock,
    consumer_touches_slot, lemma_at_rest_flag_matches_slot, lemma_mutual_exclusion,
    lemma_every_schedule_is_safe, lemma_no_slot_race, lemma_protocol_init,
    lemma_protocol_inv_preserved, lemma_reads_find_live_value, producer_holds_lock,
    producer_touches_slot, protocol_init, protocol_inv, protocol_step, protocol_trace,
};
