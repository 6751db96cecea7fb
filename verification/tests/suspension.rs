use std::sync::{Arc, Mutex};
use std::task::{Wake, Waker};
use waker_channel::{Poll, PopError, PushError, WakerQueue};

struct Count(Mutex<usize>);

impl Wake for Count {
    fn wake(self: Arc<Self>) {
        *self.0.lock().unwrap() += 1;
    }
}

fn counting_waker() -> (Arc<Count>, Waker) {
    let count = Arc::new(Count(Mutex::new(0)));
    (count.clone(), Waker::from(count))
}

fn woken(count: &Arc<Count>) -> usize {
    *count.0.lock().unwrap()
}

#[test]
fn push_into_queue_with_room_resolves_at_once() {
    let mut q = WakerQueue::bounded(2);
    let (count, waker) = counting_waker();
    let mut push = q.push(41);
    assert!(!push.is_terminated());
    assert_eq!(push.poll(&mut q, &waker), Poll::Ready(Ok(())));
    assert!(push.is_terminated());
    assert_eq!(q.len(), 1);
    q.wake();
    assert_eq!(woken(&count), 0);
    assert_eq!(q.try_pop(), Ok(41));
}

#[test]
fn push_into_closed_queue_resolves_with_the_value() {
    let mut q = WakerQueue::bounded(2);
    let (_count, waker) = counting_waker();
    q.close();
    let mut push = q.push(42);
    assert_eq!(push.poll(&mut q, &waker), Poll::Ready(Err(PushError::Closed(42))));
    assert!(push.is_terminated());
    assert_eq!(q.len(), 0);
}

#[test]
fn push_into_full_queue_waits_then_resolves_after_a_pop() {
    let mut q = WakerQueue::bounded(1);
    let (count, waker) = counting_waker();
    let mut first = q.push(1);
    assert_eq!(first.poll(&mut q, &waker), Poll::Ready(Ok(())));
    let mut second = q.push(2);
    assert_eq!(second.poll(&mut q, &waker), Poll::Pending);
    assert!(!second.is_terminated());
    assert_eq!(second.poll(&mut q, &waker), Poll::Pending);
    assert_eq!(woken(&count), 0);
    assert_eq!(q.try_pop_wake_full(), Ok(1));
    assert_eq!(woken(&count), 1);
    assert_eq!(second.poll(&mut q, &waker), Poll::Ready(Ok(())));
    assert!(second.is_terminated());
    assert_eq!(q.try_pop(), Ok(2));
    assert_eq!(q.try_pop(), Err(PopError::Empty));
}

#[test]
fn pending_push_resolves_as_closed_when_queue_closes() {
    let mut q = WakerQueue::bounded(1);
    let (count, waker) = counting_waker();
    assert_eq!(q.try_push(1), Ok(()));
    let mut push = q.push(2);
    assert_eq!(push.poll(&mut q, &waker), Poll::Pending);
    q.close();
    assert_eq!(woken(&count), 1);
    assert_eq!(push.poll(&mut q, &waker), Poll::Ready(Err(PushError::Closed(2))));
    assert_eq!(q.try_pop(), Ok(1));
}

#[test]
fn dropped_pending_push_leaves_the_queue_alone() {
    let mut q = WakerQueue::bounded(1);
    let (_count, waker) = counting_waker();
    assert_eq!(q.try_push(1), Ok(()));
    let mut push = q.push(2);
    assert_eq!(push.poll(&mut q, &waker), Poll::Pending);
    drop(push);
    assert_eq!(q.try_pop(), Ok(1));
    assert_eq!(q.try_pop(), Err(PopError::Empty));
}

#[test]
fn pop_with_an_item_resolves_and_leaves_its_registration() {
    let mut q = WakerQueue::unbounded();
    let (count, waker) = counting_waker();
    assert_eq!(q.try_push(7), Ok(()));
    let mut pop = q.pop();
    assert_eq!(pop.poll(&mut q, &waker), Poll::Ready(Ok(7)));
    q.wake();
    assert_eq!(woken(&count), 1);
}

#[test]
fn pop_on_closed_empty_queue_resolves_as_closed() {
    let mut q = WakerQueue::unbounded();
    let (_count, waker) = counting_waker();
    q.close();
    let mut pop = q.pop();
    assert_eq!(pop.poll(&mut q, &waker), Poll::Ready(Err(PopError::Closed)));
}

#[test]
fn pop_drains_a_closed_queue_before_it_reports_closed() {
    let mut q = WakerQueue::unbounded();
    let (_count, waker) = counting_waker();
    assert_eq!(q.try_push(1), Ok(()));
    q.close();
    let mut pop = q.pop();
    assert_eq!(pop.poll(&mut q, &waker), Poll::Ready(Ok(1)));
    let mut again = q.pop();
    assert_eq!(again.poll(&mut q, &waker), Poll::Ready(Err(PopError::Closed)));
}

#[test]
fn pending_pop_is_woken_by_a_push_and_gets_its_value() {
    let mut q = WakerQueue::unbounded();
    let (count, waker) = counting_waker();
    let mut pop = q.pop();
    assert_eq!(pop.poll(&mut q, &waker), Poll::Pending);
    assert_eq!(woken(&count), 0);
    assert_eq!(q.try_push_wake_empty(99), Ok(()));
    assert_eq!(woken(&count), 1);
    assert_eq!(pop.poll(&mut q, &waker), Poll::Ready(Ok(99)));
    assert_eq!(woken(&count), 1);
}

#[test]
fn pending_pop_is_woken_when_queue_closes() {
    let mut q = WakerQueue::unbounded();
    let (count, waker) = counting_waker();
    let mut pop = q.pop();
    assert_eq!(pop.poll(&mut q, &waker), Poll::Pending);
    q.close();
    assert_eq!(woken(&count), 1);
    assert_eq!(pop.poll(&mut q, &waker), Poll::Ready(Err(PopError::Closed)));
}

#[test]
fn every_pushed_value_reaches_one_pop_in_order() {
    let mut q = WakerQueue::bounded(4);
    let (count, waker) = counting_waker();
    let mut received = Vec::new();
    let mut next = 0u64;
    let mut wakeups = 0;
    for round in 0..50usize {
        let mut pop = q.pop();
        match pop.poll(&mut q, &waker) {
            Poll::Ready(Ok(v)) => received.push(v),
            Poll::Ready(Err(e)) => panic!("{:?}", e),
            Poll::Pending => {
                let burst = 1 + round % 4;
                for _ in 0..burst {
                    assert_eq!(q.try_push_wake_empty(next), Ok(()));
                    next += 1;
                }
                wakeups += 1;
                assert_eq!(woken(&count), wakeups);
                match pop.poll(&mut q, &waker) {
                    Poll::Ready(Ok(v)) => received.push(v),
                    other => panic!("{:?}", other),
                }
            }
        }
    }
    while let Ok(v) = q.try_pop() {
        received.push(v);
    }
    let expected: Vec<u64> = (0..next).collect();
    assert_eq!(received, expected);
}
