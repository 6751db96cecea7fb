use std::sync::{Arc, Mutex};
use std::task::{Wake, Waker};
use waker_channel::{PopError, PushError, WakerQueue};

struct Count(Mutex<usize>);

impl Wake for Count {
    fn wake(self: Arc<Self>) {
        *self.0.lock().unwrap() += 1;
    }
}

fn counting_waker() -> (Arc<Count>, Waker) {
    let count = Arc::new(Count(Mutex::new(0)));
    (count.clone(), Waker::from(count))
}

fn woken(count: &Arc<Count>) -> usize {
    *count.0.lock().unwrap()
}

#[test]
fn bounded_queue_starts_empty_and_open() {
    let q = WakerQueue::bounded(3);
    assert!(q.is_empty());
    assert!(!q.is_full());
    assert_eq!(q.len(), 0);
    assert_eq!(q.capacity(), Some(3));
    assert!(!q.is_closed());
}

#[test]
fn bounded_queue_of_one_reports_capacity_one() {
    let mut q = WakerQueue::bounded(1);
    assert_eq!(q.capacity(), Some(1));
    assert_eq!(q.try_push(9), Ok(()));
    assert!(q.is_full());
    assert_eq!(q.len(), 1);
    assert_eq!(q.try_push(10), Err(PushError::Full(10)));
    assert_eq!(q.try_pop(), Ok(9));
    assert!(q.is_empty());
}

#[test]
fn unbounded_queue_has_no_capacity_and_is_never_full() {
    let mut q = WakerQueue::unbounded();
    assert_eq!(q.capacity(), None);
    for i in 0..100u64 {
        assert_eq!(q.try_push(i), Ok(()));
        assert!(!q.is_full());
    }
    assert_eq!(q.len(), 100);
    assert!(!q.is_empty());
}

#[test]
fn full_after_capacity_pushes_and_next_push_returns_value() {
    let mut q = WakerQueue::bounded(4);
    for i in 0..4u64 {
        assert!(!q.is_full());
        assert_eq!(q.try_push(100 + i), Ok(()));
    }
    assert!(q.is_full());
    assert_eq!(q.len(), 4);
    assert_eq!(q.try_push(777), Err(PushError::Full(777)));
    assert_eq!(q.len(), 4);
    assert_eq!(q.try_pop(), Ok(100));
}

#[test]
fn pops_come_in_push_order() {
    let mut q = WakerQueue::unbounded();
    assert_eq!(q.try_push(5), Ok(()));
    assert_eq!(q.try_push(3), Ok(()));
    assert_eq!(q.try_pop(), Ok(5));
    assert_eq!(q.try_push(8), Ok(()));
    assert_eq!(q.try_push(1), Ok(()));
    assert_eq!(q.try_pop(), Ok(3));
    assert_eq!(q.try_pop(), Ok(8));
    assert_eq!(q.try_pop(), Ok(1));
    assert_eq!(q.try_pop(), Err(PopError::Empty));
}

#[test]
fn pops_come_in_push_order_when_bounded_queue_wraps_around() {
    let mut q = WakerQueue::bounded(3);
    let mut next_in = 0u64;
    let mut next_out = 0u64;
    for _ in 0..10 {
        while q.try_push(next_in).is_ok() {
            next_in += 1;
        }
        assert_eq!(q.try_pop(), Ok(next_out));
        next_out += 1;
        assert_eq!(q.try_pop(), Ok(next_out));
        next_out += 1;
    }
    assert_eq!(next_in, 21);
    assert_eq!(q.len(), 1);
}

#[test]
fn pop_on_empty_open_queue_is_empty() {
    let mut q = WakerQueue::bounded(2);
    assert_eq!(q.try_pop(), Err(PopError::Empty));
    assert_eq!(q.len(), 0);
}

#[test]
fn closed_queue_refuses_pushes_and_drains() {
    let mut q = WakerQueue::bounded(3);
    assert_eq!(q.try_push(1), Ok(()));
    assert_eq!(q.try_push(2), Ok(()));
    q.close();
    assert!(q.is_closed());
    assert_eq!(q.len(), 2);
    assert_eq!(q.try_push(3), Err(PushError::Closed(3)));
    assert_eq!(q.try_pop(), Ok(1));
    assert_eq!(q.try_push(4), Err(PushError::Closed(4)));
    assert_eq!(q.try_pop(), Ok(2));
    assert_eq!(q.try_pop(), Err(PopError::Closed));
    assert_eq!(q.try_pop(), Err(PopError::Closed));
    assert_eq!(q.try_push(5), Err(PushError::Closed(5)));
}

#[test]
fn closed_wins_over_full() {
    let mut q = WakerQueue::bounded(1);
    assert_eq!(q.try_push(1), Ok(()));
    assert_eq!(q.try_push(2), Err(PushError::Full(2)));
    q.close();
    assert_eq!(q.try_push(2), Err(PushError::Closed(2)));
}

#[test]
fn close_twice_stays_closed() {
    let mut q = WakerQueue::unbounded();
    q.close();
    q.close();
    assert!(q.is_closed());
    assert_eq!(q.try_pop(), Err(PopError::Closed));
}

#[test]
fn close_notifies_the_registered_waker_each_time() {
    let mut q = WakerQueue::unbounded();
    let (count, waker) = counting_waker();
    q.register(&waker);
    q.close();
    assert_eq!(woken(&count), 1);
    q.close();
    assert_eq!(woken(&count), 1);
    q.register(&waker);
    q.close();
    assert_eq!(woken(&count), 2);
}

#[test]
fn wake_without_registration_does_nothing() {
    let mut q = WakerQueue::unbounded();
    q.wake();
    assert!(q.is_empty());
}

#[test]
fn wake_clears_the_slot() {
    let mut q = WakerQueue::unbounded();
    let (count, waker) = counting_waker();
    q.register(&waker);
    assert_eq!(woken(&count), 0);
    q.wake();
    assert_eq!(woken(&count), 1);
    q.wake();
    assert_eq!(woken(&count), 1);
}

#[test]
fn last_registration_wins() {
    let mut q = WakerQueue::unbounded();
    let (first, first_waker) = counting_waker();
    let (second, second_waker) = counting_waker();
    q.register(&first_waker);
    q.register(&second_waker);
    q.wake();
    assert_eq!(woken(&first), 0);
    assert_eq!(woken(&second), 1);
}

#[test]
fn wake_if_follows_its_flag() {
    let mut q = WakerQueue::unbounded();
    let (count, waker) = counting_waker();
    q.register(&waker);
    q.wake_if(false);
    assert_eq!(woken(&count), 0);
    q.wake_if(true);
    assert_eq!(woken(&count), 1);
}

#[test]
fn try_push_never_notifies() {
    let mut q = WakerQueue::unbounded();
    let (count, waker) = counting_waker();
    q.register(&waker);
    assert_eq!(q.try_push(1), Ok(()));
    assert_eq!(q.try_pop(), Ok(1));
    assert_eq!(woken(&count), 0);
}

#[test]
fn try_push_wake_notifies_on_success_with_flag_only() {
    let mut q = WakerQueue::bounded(2);
    let (count, waker) = counting_waker();
    q.register(&waker);
    assert_eq!(q.try_push_wake(1, false), Ok(()));
    assert_eq!(woken(&count), 0);
    assert_eq!(q.try_push_wake(2, true), Ok(()));
    assert_eq!(woken(&count), 1);
    q.register(&waker);
    assert_eq!(q.try_push_wake(3, true), Err(PushError::Full(3)));
    assert_eq!(woken(&count), 1);
    assert_eq!(q.len(), 2);
}

#[test]
fn try_push_wake_empty_notifies_only_when_queue_was_empty() {
    let mut q = WakerQueue::unbounded();
    let (count, waker) = counting_waker();
    q.register(&waker);
    assert_eq!(q.try_push_wake_empty(1), Ok(()));
    assert_eq!(woken(&count), 1);
    q.register(&waker);
    assert_eq!(q.try_push_wake_empty(2), Ok(()));
    assert_eq!(woken(&count), 1);
    assert_eq!(q.try_pop(), Ok(1));
    assert_eq!(q.try_pop(), Ok(2));
}

#[test]
fn try_push_wake_empty_on_closed_queue_does_not_notify() {
    let mut q = WakerQueue::unbounded();
    let (count, waker) = counting_waker();
    q.close();
    q.register(&waker);
    assert_eq!(q.try_push_wake_empty(1), Err(PushError::Closed(1)));
    assert_eq!(woken(&count), 0);
}

#[test]
fn try_push_wake_full_never_finds_room_in_a_full_queue() {
    let mut q = WakerQueue::bounded(1);
    let (count, waker) = counting_waker();
    q.register(&waker);
    assert_eq!(q.try_push_wake_full(1), Ok(()));
    assert_eq!(woken(&count), 0);
    assert_eq!(q.try_push_wake_full(2), Err(PushError::Full(2)));
    assert_eq!(woken(&count), 0);
    assert_eq!(q.len(), 1);
}

#[test]
fn try_pop_never_notifies() {
    let mut q = WakerQueue::bounded(1);
    let (count, waker) = counting_waker();
    assert_eq!(q.try_push(1), Ok(()));
    q.register(&waker);
    assert_eq!(q.try_pop(), Ok(1));
    assert_eq!(woken(&count), 0);
}

#[test]
fn try_pop_wake_notifies_on_success_with_flag_only() {
    let mut q = WakerQueue::unbounded();
    let (count, waker) = counting_waker();
    assert_eq!(q.try_push(1), Ok(()));
    assert_eq!(q.try_push(2), Ok(()));
    q.register(&waker);
    assert_eq!(q.try_pop_wake(false), Ok(1));
    assert_eq!(woken(&count), 0);
    assert_eq!(q.try_pop_wake(true), Ok(2));
    assert_eq!(woken(&count), 1);
    q.register(&waker);
    assert_eq!(q.try_pop_wake(true), Err(PopError::Empty));
    assert_eq!(woken(&count), 1);
}

#[test]
fn try_pop_wake_full_notifies_only_when_queue_was_full() {
    let mut q = WakerQueue::bounded(2);
    let (count, waker) = counting_waker();
    assert_eq!(q.try_push(1), Ok(()));
    assert_eq!(q.try_push(2), Ok(()));
    q.register(&waker);
    assert_eq!(q.try_pop_wake_full(), Ok(1));
    assert_eq!(woken(&count), 1);
    q.register(&waker);
    assert_eq!(q.try_pop_wake_full(), Ok(2));
    assert_eq!(woken(&count), 1);
}

#[test]
fn try_pop_wake_full_on_unbounded_queue_does_not_notify() {
    let mut q = WakerQueue::unbounded();
    let (count, waker) = counting_waker();
    assert_eq!(q.try_push(1), Ok(()));
    q.register(&waker);
    assert_eq!(q.try_pop_wake_full(), Ok(1));
    assert_eq!(woken(&count), 0);
}

#[test]
fn try_pop_wake_empty_never_finds_an_item_in_an_empty_queue() {
    let mut q = WakerQueue::unbounded();
    let (count, waker) = counting_waker();
    q.register(&waker);
    assert_eq!(q.try_pop_wake_empty(), Err(PopError::Empty));
    assert_eq!(q.try_push(1), Ok(()));
    assert_eq!(q.try_pop_wake_empty(), Ok(1));
    assert_eq!(woken(&count), 0);
}

#[test]
fn push_error_hands_its_value_back() {
    assert_eq!(PushError::Full(12).into_inner(), 12);
    assert_eq!(PushError::Closed(13).into_inner(), 13);
}

#[test]
fn largest_capacity_keeps_the_slots_within_one_allocation() {
    assert_eq!(waker_channel::MAX_CAPACITY, usize::MAX / 32);
    assert!(waker_channel::MAX_CAPACITY as u128 * 16 <= isize::MAX as u128);
    assert!((waker_channel::MAX_CAPACITY as u128 + 1) * 16 > isize::MAX as u128);
}

#[test]
fn large_bounded_queue_takes_what_it_was_made_for() {
    let mut q = WakerQueue::bounded(1000);
    assert_eq!(q.capacity(), Some(1000));
    for i in 0..1000u64 {
        assert_eq!(q.try_push(i), Ok(()));
    }
    assert!(q.is_full());
    assert_eq!(q.try_push(1000), Err(PushError::Full(1000)));
    for i in 0..1000u64 {
        assert_eq!(q.try_pop(), Ok(i));
    }
    assert!(q.is_empty());
}
