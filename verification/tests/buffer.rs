use image_collection::buffer::CandidateBuffer;
use image_collection::coordinator::RefreshCoordinator;
use image_collection::duel::Duel;
use image_collection::queue::MAX_CAPACITY;

fn duel(home_id: u32, guest_id: u32) -> Duel {
    Duel {
        home: format!("{}", home_id),
        home_id,
        guest: format!("{}", guest_id),
        guest_id,
    }
}

#[test]
fn new_buffer_is_empty_with_requested_capacity() {
    let buffer = CandidateBuffer::new(7);
    assert_eq!(buffer.capacity(), 7);
    assert_eq!(buffer.occupancy(), 0);
}

#[test]
fn smallest_and_largest_capacity_are_accepted() {
    let small = CandidateBuffer::new(1);
    assert_eq!(small.capacity(), 1);
    assert_eq!(MAX_CAPACITY, 16_777_216);
}

#[test]
fn push_is_accepted_until_full_then_dropped() {
    let mut buffer = CandidateBuffer::new(2);
    assert!(buffer.try_push(duel(1, 2)));
    assert!(buffer.try_push(duel(3, 4)));
    assert!(!buffer.try_push(duel(5, 6)));
    assert_eq!(buffer.occupancy(), 2);
    assert_eq!(buffer.try_pop(), Some(duel(1, 2)));
    assert_eq!(buffer.try_pop(), Some(duel(3, 4)));
    assert_eq!(buffer.try_pop(), None);
}

#[test]
fn pop_on_empty_buffer_returns_nothing() {
    let mut buffer = CandidateBuffer::new(3);
    assert_eq!(buffer.try_pop(), None);
    assert_eq!(buffer.occupancy(), 0);
}

#[test]
fn duels_leave_in_the_order_they_came() {
    let mut buffer = CandidateBuffer::new(3);
    for round in 0..10u32 {
        assert!(buffer.try_push(duel(round, round + 100)));
        assert!(buffer.try_push(duel(round + 1000, round + 2000)));
        assert_eq!(buffer.try_pop(), Some(duel(round, round + 100)));
        assert_eq!(buffer.try_pop(), Some(duel(round + 1000, round + 2000)));
    }
    assert_eq!(buffer.occupancy(), 0);
}

#[test]
fn occupancy_never_exceeds_capacity() {
    let mut buffer = CandidateBuffer::new(4);
    let mut expected: usize = 0;
    for step in 0..200u32 {
        if step % 3 == 2 {
            if buffer.try_pop().is_some() {
                expected -= 1;
            }
        } else if buffer.try_push(duel(step, step + 1)) {
            expected += 1;
        }
        assert_eq!(buffer.occupancy(), expected);
        assert!(buffer.occupancy() <= buffer.capacity());
    }
    assert_eq!(buffer.capacity(), 4);
}

#[test]
fn fill_keeps_the_head_of_the_batch_and_drops_the_rest() {
    let mut buffer = CandidateBuffer::new(3);
    assert!(buffer.try_push(duel(9, 8)));
    let batch = vec![duel(1, 2), duel(3, 4), duel(5, 6), duel(7, 8)];
    assert_eq!(buffer.fill(batch), 2);
    assert_eq!(buffer.occupancy(), 3);
    assert_eq!(buffer.try_pop(), Some(duel(9, 8)));
    assert_eq!(buffer.try_pop(), Some(duel(1, 2)));
    assert_eq!(buffer.try_pop(), Some(duel(3, 4)));
    assert_eq!(buffer.try_pop(), None);
}

#[test]
fn fill_with_a_short_batch_takes_all_of_it() {
    let mut buffer = CandidateBuffer::new(5);
    assert_eq!(buffer.fill(vec![duel(1, 2), duel(3, 4)]), 2);
    assert_eq!(buffer.fill(Vec::new()), 0);
    assert_eq!(buffer.occupancy(), 2);
}

#[test]
fn fill_into_a_full_buffer_accepts_nothing() {
    let mut buffer = CandidateBuffer::new(1);
    assert!(buffer.try_push(duel(1, 2)));
    assert_eq!(buffer.fill(vec![duel(3, 4), duel(5, 6)]), 0);
    assert_eq!(buffer.try_pop(), Some(duel(1, 2)));
}

#[test]
fn guard_is_won_once_until_released() {
    let mut guard = RefreshCoordinator::new();
    assert!(!guard.is_held());
    assert!(guard.try_acquire());
    assert!(guard.is_held());
    assert!(!guard.try_acquire());
    assert!(!guard.try_acquire());
    assert!(guard.is_held());
    guard.release();
    assert!(!guard.is_held());
    assert!(guard.try_acquire());
}

#[test]
fn at_most_one_refill_is_in_flight() {
    let mut guard = RefreshCoordinator::new();
    let mut running: u32 = 0;
    for step in 0..300u32 {
        if step % 7 == 6 {
            if running > 0 {
                guard.release();
                running -= 1;
            }
        } else if guard.try_acquire() {
            running += 1;
        }
        assert!(running <= 1);
        assert_eq!(guard.is_held(), running == 1);
    }
}
