//! One queue behind many handles.
//!
//! The handles of a channel hold the same [`Shared`]. A handle reaches the
//! queue in a [`Turn`]: while the turn lasts the queue is this handle's alone,
//! and each step of the turn has the exact contract of [`WakerQueue`].
//!
//! The operations of [`Shared`] itself are turns of one step. What the other
//! handles did before such a turn is not known to the caller, so their
//! contracts say what holds on every state that the queue can be in.
//!
//! A continuation is woken while the queue is taken. Waking schedules a task;
//! it must not itself use the channel.

use vstd::prelude::*;
use vstd::rwlock::{RwLock, RwLockPredicate, WriteHandle};
use std::task::Waker;
use crate::state::{Poll, PopError, PushError, QueueState};
use crate::waker_queue::{Pop, Push, WakerQueue, MAX_CAPACITY};

verus! {

/// What every holder of a shared queue may rely on: the queue is well-formed
/// and has the capacity that it was made with.
pub struct Bound {
    pub capacity: Option<usize>,
}

impl RwLockPredicate<WakerQueue> for Bound {
    open spec fn inv(self, queue: WakerQueue) -> bool {
        queue@.wf() && queue@.capacity == self.capacity
    }
}

/// A queue that several handles use in turn.
pub struct Shared {
    lock: RwLock<WakerQueue, Bound>,
}

impl Shared {
    /// The capacity that the queue was made with, `None` for an unbounded one.
    pub closed spec fn spec_capacity(&self) -> Option<usize> {
        self.lock.pred().capacity
    }

    /// A shared queue for at most `size` items.
    pub fn bounded(size: usize) -> (s: Shared)
        requires
            0 < size <= MAX_CAPACITY,
        ensures
            s.capacity() == Some(size),
    {
        Shared { lock: RwLock::new(WakerQueue::bounded(size), Ghost(Bound { capacity: Some(size) })) }
    }

    /// A shared queue without a bound.
    pub fn unbounded() -> (s: Shared)
        ensures
            s.capacity() == None::<usize>,
    {
        Shared { lock: RwLock::new(WakerQueue::unbounded(), Ghost(Bound { capacity: None })) }
    }

    /// The capacity that the queue was made with.
    #[verifier::when_used_as_spec(spec_capacity)]
    pub fn capacity(&self) -> (c: Option<usize>)
        ensures
            c == self.capacity(),
    {
        let guard = self.lock.acquire_read();
        let c = guard.borrow().capacity();
        guard.release_read();
        c
    }

    /// One `try_push` on the queue as it is now. A refusal hands `value` back,
    /// and only a bounded queue refuses as `Full`.
    pub fn try_push(&self, value: u64) -> (r: Result<(), PushError>)
        ensures
            r matches Err(e) ==> e.value() == value,
            r matches Err(PushError::Full(_)) ==> self.capacity() is Some,
    {
        let (mut queue, guard) = self.lock.acquire_write();
        let r = queue.try_push(value);
        guard.release_write(queue);
        r
    }

    /// One `try_pop` on the queue as it is now.
    pub fn try_pop(&self) -> Result<u64, PopError> {
        let (mut queue, guard) = self.lock.acquire_write();
        let r = queue.try_pop();
        guard.release_write(queue);
        r
    }

    /// A suspension object that holds `value` until it has been pushed. The
    /// queue itself is not touched.
    pub fn push(&self, value: u64) -> (p: Push)
        ensures
            p.value() == Some(value),
    {
        Push::new(value)
    }

    /// A suspension object for one pop. The queue itself is not touched.
    pub fn pop(&self) -> Pop {
        Pop::new()
    }

    /// One resumption of `push` on the queue as it is now. The value is held
    /// on while the push is pending, which only a bounded queue causes; it
    /// comes back when the queue is closed; a resolved push holds nothing.
    pub fn poll_push(&self, push: &mut Push, waker: &Waker) -> (r: Poll<Result<(), PushError>>)
        requires
            old(push).value() is Some,
        ensures
            match r {
                Poll::Ready(Ok(())) => final(push).value() is None,
                Poll::Ready(Err(e)) => e == PushError::Closed(old(push).value().unwrap())
                    && final(push).value() is None,
                Poll::Pending => final(push).value() == old(push).value()
                    && self.capacity() is Some,
            },
    {
        let (mut queue, guard) = self.lock.acquire_write();
        let r = push.poll(&mut queue, waker);
        guard.release_write(queue);
        r
    }

    /// One resumption of `pop` on the queue as it is now. It never resolves
    /// as `Empty`: on an open queue without items it is pending.
    pub fn poll_pop(&self, pop: &mut Pop, waker: &Waker) -> (r: Poll<Result<u64, PopError>>)
        ensures
            r != Poll::Ready(Err::<u64, PopError>(PopError::Empty)),
    {
        let (mut queue, guard) = self.lock.acquire_write();
        let r = pop.poll(&mut queue, waker);
        guard.release_write(queue);
        r
    }

    /// Closes the queue and notifies the slot.
    pub fn close(&self) {
        let (mut queue, guard) = self.lock.acquire_write();
        queue.close();
        guard.release_write(queue);
    }
}

/// A handle's turn at the queue: from [`Shared::turn`] to [`Turn::end`] the
/// queue is this handle's alone, so each step of the turn is known exactly.
/// A turn that is dropped without `end` keeps the queue taken.
pub struct Turn<'a, H> {
    handle: &'a H,
    queue: WakerQueue,
    guard: WriteHandle<'a, WakerQueue, Bound>,
}

impl<'a, H> View for Turn<'a, H> {
    type V = QueueState;

    closed spec fn view(&self) -> QueueState {
        self.queue@
    }
}

impl<'a, H> Turn<'a, H> {
    /// The handle whose turn this is.
    pub closed spec fn handle(&self) -> H {
        *self.handle
    }

    /// The shared queue that was taken.
    pub closed spec fn shared(&self) -> Shared {
        Shared { lock: self.guard.rwlock() }
    }

    /// The queue is as every holder of the shared queue may expect it:
    /// well-formed, with the capacity that it was made with.
    pub open spec fn wf(&self) -> bool {
        self@.wf() && self@.capacity == self.shared().capacity()
    }

    /// One `try_push` in this turn.
    pub fn try_push(&mut self, value: u64) -> (r: Result<(), PushError>)
        ensures
            r == old(self)@.push_result(value),
            final(self)@ == old(self)@.push(value),
            final(self).shared() == old(self).shared(),
            final(self).handle() == old(self).handle(),
    {
        self.queue.try_push(value)
    }

    /// One `try_pop` in this turn.
    pub fn try_pop(&mut self) -> (r: Result<u64, PopError>)
        ensures
            r == old(self)@.pop_result(),
            final(self)@ == old(self)@.pop(),
            final(self).shared() == old(self).shared(),
            final(self).handle() == old(self).handle(),
    {
        self.queue.try_pop()
    }

    /// One resumption of `push` in this turn.
    pub fn poll_push(&mut self, push: &mut Push, waker: &Waker) -> (r: Poll<Result<(), PushError>>)
        requires
            old(push).value() is Some,
        ensures
            r == old(self)@.poll_push_result(old(push).value().unwrap()),
            final(self)@ == old(self)@.poll_push(old(push).value().unwrap()),
            final(push).value() == (if r is Pending {
                old(push).value()
            } else {
                None
            }),
            final(self).shared() == old(self).shared(),
            final(self).handle() == old(self).handle(),
    {
        push.poll(&mut self.queue, waker)
    }

    /// One resumption of `pop` in this turn.
    pub fn poll_pop(&mut self, pop: &mut Pop, waker: &Waker) -> (r: Poll<Result<u64, PopError>>)
        ensures
            r == old(self)@.poll_pop_result(),
            final(self)@ == old(self)@.poll_pop(),
            final(self).shared() == old(self).shared(),
            final(self).handle() == old(self).handle(),
    {
        pop.poll(&mut self.queue, waker)
    }

    /// Ends the turn: the queue goes back to where the other handles find it.
    /// A turn begins well-formed and every step keeps it so.
    pub fn end(self)
        requires
            self.wf(),
    {
        self.guard.release_write(self.queue);
    }
}

impl Shared {
    /// Takes the queue for a turn of `handle`, waiting while another turn
    /// lasts.
    pub fn turn<'a, H>(&'a self, handle: &'a H) -> (t: Turn<'a, H>)
        ensures
            t.wf(),
            t.shared() == *self,
            t.handle() == *handle,
    {
        let (queue, guard) = self.lock.acquire_write();
        Turn { handle, queue, guard }
    }
}

} // verus!
