//! Behaviour of the four transfer operations driven through the two handles.

use ssq::SingleSlotQueue;

#[test]
fn scenario_fill_then_reject() {
    let mut queue = SingleSlotQueue::<u32>::new();
    let (mut cons, mut prod) = queue.split();

    // `enqueue` returns `None` when the queue is empty.
    assert_eq!(prod.enqueue(&mut queue, 50), None);
    // `enqueue` returns the offered value when the queue is already full.
    assert_eq!(prod.enqueue(&mut queue, 2), Some(2));
    // The slot still holds the first value.
    assert_eq!(cons.dequeue(&mut queue), Some(50));
}

#[test]
fn scenario_overwrite_then_dequeue() {
    let mut queue = SingleSlotQueue::<u32>::new();
    let (mut cons, mut prod) = queue.split();

    assert_eq!(prod.enqueue(&mut queue, 50), None);
    prod.enqueue_overwrite(&mut queue, 25);
    assert_eq!(cons.dequeue(&mut queue), Some(25));
}

#[test]
fn scenario_empty_dequeue() {
    let mut queue = SingleSlotQueue::<u32>::new();
    let (mut cons, _prod) = queue.split();

    assert_eq!(cons.dequeue(&mut queue), None);
}

#[test]
fn scenario_peek_twice_then_drain() {
    let mut queue = SingleSlotQueue::<u32>::new();
    let (mut cons, mut prod) = queue.split();

    assert_eq!(prod.enqueue(&mut queue, 0), None);
    assert_eq!(cons.peek(&mut queue), Some(0));
    assert_eq!(cons.peek(&mut queue), Some(0));
    assert_eq!(cons.dequeue(&mut queue), Some(0));
    assert_eq!(cons.dequeue(&mut queue), None);
}

#[test]
fn accepted_value_is_not_lost() {
    let mut queue = SingleSlotQueue::<u64>::new();
    let (mut cons, mut prod) = queue.split();

    assert_eq!(prod.enqueue(&mut queue, 7), None);
    assert_eq!(cons.dequeue(&mut queue), Some(7));
}

#[test]
fn rejection_hands_value_back_and_keeps_slot() {
    let mut queue = SingleSlotQueue::<u32>::new();
    let (mut cons, mut prod) = queue.split();

    assert_eq!(prod.enqueue(&mut queue, 1), None);
    assert_eq!(prod.enqueue(&mut queue, 9), Some(9));
    assert_eq!(cons.peek(&mut queue), Some(1));
    assert_eq!(cons.dequeue(&mut queue), Some(1));
}

#[test]
fn overwrite_succeeds_on_empty_queue() {
    let mut queue = SingleSlotQueue::<u32>::new();
    let (mut cons, mut prod) = queue.split();

    prod.enqueue_overwrite(&mut queue, 11);
    assert_eq!(cons.dequeue(&mut queue), Some(11));
}

#[test]
fn overwrite_replaces_held_value() {
    let mut queue = SingleSlotQueue::<u32>::new();
    let (mut cons, mut prod) = queue.split();

    assert_eq!(prod.enqueue(&mut queue, 3), None);
    prod.enqueue_overwrite(&mut queue, 4);
    prod.enqueue_overwrite(&mut queue, 5);
    assert_eq!(cons.dequeue(&mut queue), Some(5));
}

#[test]
fn empty_reads_stay_empty() {
    let mut queue = SingleSlotQueue::<u32>::new();
    let (mut cons, mut prod) = queue.split();

    for _ in 0..10 {
        assert_eq!(cons.dequeue(&mut queue), None);
        assert_eq!(cons.peek(&mut queue), None);
        assert!(cons.is_empty(&queue));
    }
    assert_eq!(prod.enqueue(&mut queue, 8), None);
    assert_eq!(cons.peek(&mut queue), Some(8));
}

#[test]
fn is_empty_tracks_occupancy_on_both_handles() {
    let mut queue = SingleSlotQueue::<u32>::new();
    let (mut cons, mut prod) = queue.split();

    assert!(cons.is_empty(&queue));
    assert!(prod.is_empty(&queue));
    assert_eq!(prod.enqueue(&mut queue, 42), None);
    assert!(!cons.is_empty(&queue));
    assert!(!prod.is_empty(&queue));
    assert_eq!(cons.dequeue(&mut queue), Some(42));
    assert!(cons.is_empty(&queue));
    assert!(prod.is_empty(&queue));
}

#[test]
fn many_transfers_round_trip() {
    let mut queue = SingleSlotQueue::<u32>::new();
    let (mut cons, mut prod) = queue.split();

    for i in 0..500u32 {
        assert_eq!(prod.enqueue(&mut queue, i), None);
        assert_eq!(cons.dequeue(&mut queue), Some(i));
    }
    assert!(cons.is_empty(&queue));
}

#[test]
fn many_overwrites_keep_last_value() {
    let mut queue = SingleSlotQueue::<u32>::new();
    let (mut cons, mut prod) = queue.split();

    for i in 0..500u32 {
        prod.enqueue_overwrite(&mut queue, i);
    }
    assert_eq!(cons.dequeue(&mut queue), Some(499));
    assert_eq!(cons.dequeue(&mut queue), None);
}

#[test]
fn many_peeks_do_not_disturb_the_slot() {
    let mut queue = SingleSlotQueue::<u32>::new();
    let (mut cons, mut prod) = queue.split();

    assert_eq!(prod.enqueue(&mut queue, 123), None);
    for _ in 0..500 {
        assert_eq!(cons.peek(&mut queue), Some(123));
    }
    assert_eq!(cons.dequeue(&mut queue), Some(123));
}

#[test]
fn non_copy_values_move_through_intact() {
    let mut queue = SingleSlotQueue::<String>::new();
    let (mut cons, mut prod) = queue.split();

    assert_eq!(prod.enqueue(&mut queue, String::from("first")), None);
    let rejected = prod.enqueue(&mut queue, String::from("second"));
    assert_eq!(rejected, Some(String::from("second")));
    assert_eq!(cons.dequeue(&mut queue), Some(String::from("first")));
    prod.enqueue_overwrite(&mut queue, String::from("third"));
    assert_eq!(cons.dequeue(&mut queue), Some(String::from("third")));
    assert_eq!(cons.dequeue(&mut queue), None);
}
