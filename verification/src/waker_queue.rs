//! The queue with its waker slot: the one place that decides when a suspended
//! task is resumed and how the closed state is passed on.

use vstd::prelude::*;
use atomic_waker::AtomicWaker;
use concurrent_queue::ConcurrentQueue;
use std::task::Waker;
use crate::state::{Poll, PopError, PushError, QueueState};

verus! {

/// `concurrent_queue::ConcurrentQueue`, the queue that holds the items.
#[verifier::external_type_specification]
#[verifier::external_body]
#[verifier::reject_recursive_types(T)]
pub struct ExConcurrentQueue<T>(ConcurrentQueue<T>);

/// `atomic_waker::AtomicWaker`, the slot for one waker.
#[verifier::external_type_specification]
#[verifier::external_body]
pub struct ExAtomicWaker(AtomicWaker);

/// `std::task::Waker`, the continuation of a suspended task.
#[verifier::external_type_specification]
#[verifier::external_body]
pub struct ExWaker(Waker);

/// The items that a queue holds, oldest first.
pub uninterp spec fn queue_items(q: ConcurrentQueue<u64>) -> Seq<u64>;

/// The capacity that a queue was made with, `None` for an unbounded one.
pub uninterp spec fn queue_capacity(q: ConcurrentQueue<u64>) -> Option<usize>;

/// Whether a queue has been closed.
pub uninterp spec fn queue_closed(q: ConcurrentQueue<u64>) -> bool;

/// Whether a waker slot holds a waker.
pub uninterp spec fn slot_registered(w: AtomicWaker) -> bool;

/// The largest capacity that a bounded queue can be made with. A slot of the
/// queue takes up to 16 bytes, and no allocation is larger than `isize::MAX`
/// bytes.
pub const MAX_CAPACITY: usize = usize::MAX / 32;

/// A bounded queue holds as many items as its capacity.
pub open spec fn at_capacity(q: ConcurrentQueue<u64>) -> bool {
    queue_capacity(q) matches Some(c) && queue_items(q).len() == c
}

/// `ConcurrentQueue::bounded`: a new queue for at most `cap` items, empty and
/// open. The outside function panics on a capacity of zero, and on one whose
/// slots, of up to 16 bytes each, would take more than `isize::MAX` bytes.
#[verifier::external_body]
fn cq_bounded(cap: usize) -> (q: ConcurrentQueue<u64>)
    requires
        0 < cap <= MAX_CAPACITY,
    ensures
        queue_items(q) == Seq::<u64>::empty(),
        queue_capacity(q) == Some(cap),
        !queue_closed(q),
{
    ConcurrentQueue::bounded(cap)
}

/// `ConcurrentQueue::unbounded`: a new queue without a bound, empty and open.
#[verifier::external_body]
fn cq_unbounded() -> (q: ConcurrentQueue<u64>)
    ensures
        queue_items(q) == Seq::<u64>::empty(),
        queue_capacity(q) == None::<usize>,
        !queue_closed(q),
{
    ConcurrentQueue::unbounded()
}

/// `ConcurrentQueue::push`: a closed queue hands the value back as `Closed`; an
/// open one that holds as many items as its capacity hands it back as `Full`;
/// otherwise the value becomes the last item. The borrow is exclusive, so no
/// other push or pop runs beside this one.
#[verifier::external_body]
fn cq_push(q: &mut ConcurrentQueue<u64>, v: u64) -> (r: Result<(), PushError>)
    ensures
        queue_capacity(*final(q)) == queue_capacity(*old(q)),
        queue_closed(*final(q)) == queue_closed(*old(q)),
        queue_closed(*old(q)) ==> (r matches Err(PushError::Closed(x)) && x == v),
        !queue_closed(*old(q)) && at_capacity(*old(q)) ==> (r matches Err(PushError::Full(x))
            && x == v),
        !queue_closed(*old(q)) && !at_capacity(*old(q)) ==> r is Ok,
        r is Ok ==> queue_items(*final(q)) == queue_items(*old(q)).push(v),
        r is Err ==> queue_items(*final(q)) == queue_items(*old(q)),
{
    match q.push(v) {
        Ok(()) => Ok(()),
        Err(concurrent_queue::PushError::Full(x)) => Err(PushError::Full(x)),
        Err(concurrent_queue::PushError::Closed(x)) => Err(PushError::Closed(x)),
    }
}

/// `ConcurrentQueue::pop`: the oldest item leaves the queue and is returned,
/// also when the queue is closed; a queue without items returns `Closed` if it
/// is closed and `Empty` if not.
#[verifier::external_body]
fn cq_pop(q: &mut ConcurrentQueue<u64>) -> (r: Result<u64, PopError>)
    ensures
        queue_capacity(*final(q)) == queue_capacity(*old(q)),
        queue_closed(*final(q)) == queue_closed(*old(q)),
        queue_items(*old(q)).len() > 0 ==> (r matches Ok(x) && x == queue_items(*old(q))[0]),
        queue_items(*old(q)).len() == 0 && queue_closed(*old(q)) ==> r matches Err(
            PopError::Closed,
        ),
        queue_items(*old(q)).len() == 0 && !queue_closed(*old(q)) ==> r matches Err(
            PopError::Empty,
        ),
        r is Ok ==> queue_items(*final(q)) == queue_items(*old(q)).drop_first(),
        r is Err ==> queue_items(*final(q)) == queue_items(*old(q)),
{
    match q.pop() {
        Ok(x) => Ok(x),
        Err(concurrent_queue::PopError::Empty) => Err(PopError::Empty),
        Err(concurrent_queue::PopError::Closed) => Err(PopError::Closed),
    }
}

/// `ConcurrentQueue::is_empty`: whether the queue holds no item.
#[verifier::external_body]
fn cq_is_empty(q: &ConcurrentQueue<u64>) -> (r: bool)
    ensures
        r == (queue_items(*q).len() == 0),
{
    q.is_empty()
}

/// `ConcurrentQueue::is_full`: whether a bounded queue holds as many items as
/// its capacity; an unbounded queue is never full.
#[verifier::external_body]
fn cq_is_full(q: &ConcurrentQueue<u64>) -> (r: bool)
    ensures
        r == at_capacity(*q),
{
    q.is_full()
}

/// `ConcurrentQueue::len`: the number of items in the queue.
#[verifier::external_body]
fn cq_len(q: &ConcurrentQueue<u64>) -> (n: usize)
    ensures
        n == queue_items(*q).len(),
{
    q.len()
}

/// `ConcurrentQueue::capacity`: the capacity that the queue was made with.
#[verifier::external_body]
fn cq_capacity(q: &ConcurrentQueue<u64>) -> (c: Option<usize>)
    ensures
        c == queue_capacity(*q),
{
    q.capacity()
}

/// `ConcurrentQueue::close`: the queue is closed afterwards and keeps its
/// items; the result says whether this call closed it.
#[verifier::external_body]
fn cq_close(q: &mut ConcurrentQueue<u64>) -> (r: bool)
    ensures
        r == !queue_closed(*old(q)),
        queue_closed(*final(q)),
        queue_items(*final(q)) == queue_items(*old(q)),
        queue_capacity(*final(q)) == queue_capacity(*old(q)),
{
    q.close()
}

/// `ConcurrentQueue::is_closed`: whether the queue has been closed.
#[verifier::external_body]
fn cq_is_closed(q: &ConcurrentQueue<u64>) -> (r: bool)
    ensures
        r == queue_closed(*q),
{
    q.is_closed()
}

/// `AtomicWaker::new`: a slot that holds no waker.
#[verifier::external_body]
fn aw_new() -> (w: AtomicWaker)
    ensures
        !slot_registered(w),
{
    AtomicWaker::new()
}

/// `AtomicWaker::register`: the slot holds a waker afterwards, the one given or
/// one that wakes the same task; a waker that was there before is gone. The
/// borrow is exclusive, so no `wake` runs beside this call.
#[verifier::external_body]
fn aw_register(w: &mut AtomicWaker, waker: &Waker)
    ensures
        slot_registered(*final(w)),
{
    w.register(waker)
}

/// `AtomicWaker::wake`: the waker in the slot, if there is one, is taken out and
/// woken; the slot is empty afterwards.
#[verifier::external_body]
fn aw_wake(w: &mut AtomicWaker)
    ensures
        !slot_registered(*final(w)),
{
    w.wake()
}

/// A queue of `u64` items together with one waker slot.
///
/// Every method that changes the queue or the slot borrows the whole value
/// exclusively, so its contract names the one step that was taken on
/// [`QueueState`].
pub struct WakerQueue {
    queue: ConcurrentQueue<u64>,
    waker: AtomicWaker,
}

impl View for WakerQueue {
    type V = QueueState;

    closed spec fn view(&self) -> QueueState {
        QueueState {
            items: queue_items(self.queue),
            capacity: queue_capacity(self.queue),
            closed: queue_closed(self.queue),
            registered: slot_registered(self.waker),
        }
    }
}

impl WakerQueue {
    /// A queue for at most `size` items: empty, open, nothing registered.
    /// There is no queue of capacity zero, and none beyond [`MAX_CAPACITY`].
    pub fn bounded(size: usize) -> (q: WakerQueue)
        requires
            0 < size <= MAX_CAPACITY,
        ensures
            q@ == QueueState::fresh(Some(size)),
            q@.wf(),
    {
        WakerQueue { queue: cq_bounded(size), waker: aw_new() }
    }

    /// A queue without a bound: empty, open, nothing registered.
    pub fn unbounded() -> (q: WakerQueue)
        ensures
            q@ == QueueState::fresh(None),
            q@.wf(),
    {
        WakerQueue { queue: cq_unbounded(), waker: aw_new() }
    }

    /// Whether the queue holds no item.
    pub fn is_empty(&self) -> (r: bool)
        ensures
            r == self@.is_empty(),
    {
        cq_is_empty(&self.queue)
    }

    /// Whether the queue is bounded and holds as many items as its capacity.
    pub fn is_full(&self) -> (r: bool)
        ensures
            r == self@.is_full(),
    {
        cq_is_full(&self.queue)
    }

    /// The number of items in the queue.
    pub fn len(&self) -> (n: usize)
        ensures
            n == self@.items.len(),
    {
        cq_len(&self.queue)
    }

    /// The capacity that the queue was made with, `None` for an unbounded one.
    pub fn capacity(&self) -> (c: Option<usize>)
        ensures
            c == self@.capacity,
    {
        cq_capacity(&self.queue)
    }

    /// Closes the queue and notifies the slot, whether or not the queue was
    /// closed before. The items stay.
    pub fn close(&mut self)
        ensures
            final(self)@ == old(self)@.close(),
            old(self)@.wf() ==> final(self)@.wf(),
    {
        cq_close(&mut self.queue);
        aw_wake(&mut self.waker);
    }

    /// Whether the queue has been closed.
    pub fn is_closed(&self) -> (r: bool)
        ensures
            r == self@.closed,
    {
        cq_is_closed(&self.queue)
    }

    /// Pushes `value` without suspending and without notifying.
    pub fn try_push(&mut self, value: u64) -> (r: Result<(), PushError>)
        ensures
            r == old(self)@.push_result(value),
            final(self)@ == old(self)@.push(value),
            old(self)@.wf() ==> final(self)@.wf(),
    {
        let r = cq_push(&mut self.queue, value);
        assert(r is Ok ==> r->Ok_0 == ());
        r
    }

    /// Pushes `value`, then notifies if the push succeeded and `wake` holds.
    pub fn try_push_wake(&mut self, value: u64, wake: bool) -> (r: Result<(), PushError>)
        ensures
            r == old(self)@.push_result(value),
            final(self)@ == old(self)@.push_wake(value, wake),
            old(self)@.wf() ==> final(self)@.wf(),
    {
        let ret = self.try_push(value);
        self.wake_if(ret.is_ok() && wake);
        ret
    }

    /// Pushes `value` and notifies if that made an empty queue non-empty: only
    /// then can a consumer be waiting for an item.
    pub fn try_push_wake_empty(&mut self, value: u64) -> (r: Result<(), PushError>)
        ensures
            r == old(self)@.push_result(value),
            final(self)@ == old(self)@.push_wake(value, old(self)@.is_empty()),
            old(self)@.wf() ==> final(self)@.wf(),
    {
        let wake = self.is_empty();
        self.try_push_wake(value, wake)
    }

    /// Pushes `value` and notifies if the push succeeded on a queue that was
    /// full just before.
    pub fn try_push_wake_full(&mut self, value: u64) -> (r: Result<(), PushError>)
        ensures
            r == old(self)@.push_result(value),
            final(self)@ == old(self)@.push_wake(value, old(self)@.is_full()),
            old(self)@.wf() ==> final(self)@.wf(),
    {
        let wake = self.is_full();
        self.try_push_wake(value, wake)
    }

    /// Pops the oldest item without suspending and without notifying.
    pub fn try_pop(&mut self) -> (r: Result<u64, PopError>)
        ensures
            r == old(self)@.pop_result(),
            final(self)@ == old(self)@.pop(),
            old(self)@.wf() ==> final(self)@.wf(),
    {
        cq_pop(&mut self.queue)
    }

    /// Pops the oldest item, then notifies if the pop succeeded and `wake`
    /// holds.
    pub fn try_pop_wake(&mut self, wake: bool) -> (r: Result<u64, PopError>)
        ensures
            r == old(self)@.pop_result(),
            final(self)@ == old(self)@.pop_wake(wake),
            old(self)@.wf() ==> final(self)@.wf(),
    {
        let ret = self.try_pop();
        self.wake_if(ret.is_ok() && wake);
        ret
    }

    /// Pops the oldest item and notifies if the pop succeeded on a queue that
    /// was empty just before.
    pub fn try_pop_wake_empty(&mut self) -> (r: Result<u64, PopError>)
        ensures
            r == old(self)@.pop_result(),
            final(self)@ == old(self)@.pop_wake(old(self)@.is_empty()),
            old(self)@.wf() ==> final(self)@.wf(),
    {
        let wake = self.is_empty();
        self.try_pop_wake(wake)
    }

    /// Pops the oldest item and notifies if that made a full queue non-full:
    /// only then can a producer be waiting for room.
    pub fn try_pop_wake_full(&mut self) -> (r: Result<u64, PopError>)
        ensures
            r == old(self)@.pop_result(),
            final(self)@ == old(self)@.pop_wake(old(self)@.is_full()),
            old(self)@.wf() ==> final(self)@.wf(),
    {
        let wake = self.is_full();
        self.try_pop_wake(wake)
    }

    /// A suspension object that holds `value` until it has been pushed. The
    /// queue itself is not touched.
    pub fn push(&self, value: u64) -> (p: Push)
        ensures
            p.value() == Some(value),
    {
        Push::new(value)
    }

    /// A suspension object for one pop. The queue itself is not touched.
    pub fn pop(&self) -> Pop {
        Pop::new()
    }

    /// Puts `waker` into the slot, in place of what was registered before.
    pub fn register(&mut self, waker: &Waker)
        ensures
            final(self)@ == old(self)@.register(),
            old(self)@.wf() ==> final(self)@.wf(),
    {
        aw_register(&mut self.waker, waker);
    }

    /// Wakes the registered continuation, if there is one, and empties the slot.
    pub fn wake(&mut self)
        ensures
            final(self)@ == old(self)@.wake(),
            old(self)@.wf() ==> final(self)@.wf(),
    {
        aw_wake(&mut self.waker);
    }

    /// Notifies if `wake` holds, and does nothing if not.
    pub fn wake_if(&mut self, wake: bool)
        ensures
            final(self)@ == old(self)@.wake_if(wake),
            old(self)@.wf() ==> final(self)@.wf(),
    {
        if wake {
            self.wake();
        }
    }
}

/// A push that may have to wait for room: it holds its value until the value
/// is in the queue or the queue turns out to be closed.
pub struct Push {
    value: Option<u64>,
}

impl Push {
    /// The value that is still held; `None` once the push has resolved.
    pub closed spec fn value(&self) -> Option<u64> {
        self.value
    }

    pub(crate) fn new(value: u64) -> (p: Push)
        ensures
            p.value() == Some(value),
    {
        Push { value: Some(value) }
    }

    /// Whether the push has resolved, so that it must not be resumed again.
    pub fn is_terminated(&self) -> (r: bool)
        ensures
            r == (self.value() is None),
    {
        self.value.is_none()
    }

    /// One resumption: tries to push the held value.
    ///
    /// On success the value is in the queue and the push resolves. On a closed
    /// queue the push resolves with the value handed back. On a full queue the
    /// value stays held, `waker` is registered and the push is pending.
    /// Resuming a push that has resolved is a programming error.
    pub fn poll(&mut self, queue: &mut WakerQueue, waker: &Waker) -> (r: Poll<
        Result<(), PushError>,
    >)
        requires
            old(self).value() is Some,
        ensures
            r == old(queue)@.poll_push_result(old(self).value().unwrap()),
            final(queue)@ == old(queue)@.poll_push(old(self).value().unwrap()),
            old(queue)@.wf() ==> final(queue)@.wf(),
            final(self).value() == (if r is Pending {
                old(self).value()
            } else {
                None
            }),
    {
        let value = self.value.take().unwrap();
        match queue.try_push(value) {
            Ok(()) => Poll::Ready(Ok(())),
            Err(PushError::Closed(value)) => Poll::Ready(Err(PushError::Closed(value))),
            Err(PushError::Full(value)) => {
                queue.register(waker);
                self.value = Some(value);
                Poll::Pending
            },
        }
    }
}

/// A pop that may have to wait for an item. It holds nothing between
/// resumptions.
pub struct Pop {}

impl Pop {
    pub(crate) fn new() -> Pop {
        Pop {  }
    }

    /// One resumption: registers `waker` first and only then tries to pop, so
    /// that a push that notifies after the registration reaches this waiter.
    ///
    /// With an item the pop resolves with it; on a closed queue without items
    /// it resolves as closed; on an open queue without items it is pending. The
    /// registration stays in the slot in every case.
    pub fn poll(&mut self, queue: &mut WakerQueue, waker: &Waker) -> (r: Poll<
        Result<u64, PopError>,
    >)
        ensures
            r == old(queue)@.poll_pop_result(),
            final(queue)@ == old(queue)@.poll_pop(),
            old(queue)@.wf() ==> final(queue)@.wf(),
    {
        queue.register(waker);
        match queue.try_pop() {
            Ok(val) => Poll::Ready(Ok(val)),
            Err(PopError::Closed) => Poll::Ready(Err(PopError::Closed)),
            Err(PopError::Empty) => Poll::Pending,
        }
    }
}

} // verus!
