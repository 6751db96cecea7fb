//! An asynchronous channel primitive: a bounded or unbounded queue of `u64`
//! items with a single waker slot beside it, the suspension objects that retry
//! a push or a pop, and the sender and receiver handles built on them.
//!
//! Every operation of [`WakerQueue`] is a step on [`QueueState`], the channel
//! taken as a value; the contracts say which step it is, and [`laws`] says
//! what follows for whole runs of steps.
//!
//! The handles of a channel share one queue. A handle works on it in a
//! [`Turn`], begun by [`turn`]: the sends and receives of a turn are steps on
//! the queue of that turn, with the same exact contracts.

pub mod laws;
pub mod mpsc;
pub mod shared;
pub mod spmc;
pub mod spsc;
pub mod state;
pub mod waker_queue;

use vstd::prelude::*;
use std::task::Waker;

pub use crate::shared::{Shared, Turn};
pub use crate::state::{Poll, PopError, PushError, QueueState};
pub use crate::waker_queue::{Pop, Push, WakerQueue, MAX_CAPACITY};

verus! {

/// A handle that gives access to the queue of its channel.
pub trait AsyncQueue {
    /// The queue that the handles of this channel share.
    spec fn channel(&self) -> Shared;

    fn queue(&self) -> (q: &Shared)
        ensures
            *q == self.channel(),
    ;
}

/// A handle that may send without suspending.
pub trait Sender: AsyncQueue {

}

/// A handle that may receive without suspending.
pub trait Receiver: AsyncQueue {

}

/// A handle that may suspend on a send. The waker slot holds one
/// continuation, so only the one producer of a channel has this role.
pub trait AsyncSender: AsyncQueue {

}

/// A handle that may suspend on a receive. The waker slot holds one
/// continuation, so only the one consumer of a channel has this role.
pub trait AsyncReceiver: AsyncQueue {

}

/// Begins a turn of the handle `s` at the queue of its channel, waiting while
/// another handle's turn lasts. [`Turn::end`] ends it.
pub fn turn<S: AsyncQueue>(s: &S) -> (t: Turn<'_, S>)
    ensures
        t.wf(),
        t.shared() == s.channel(),
        t.handle() == *s,
{
    s.queue().turn(s)
}

/// Sends `value` if the queue takes it now: a closed queue hands it back as
/// `Closed`, a full one as `Full`, and otherwise it is the last item.
pub fn try_send<S: Sender>(turn: &mut Turn<'_, S>, value: u64) -> (r: Result<(), PushError>)
    ensures
        r == old(turn)@.push_result(value),
        final(turn)@ == old(turn)@.push(value),
        final(turn).shared() == old(turn).shared(),
        final(turn).handle() == old(turn).handle(),
{
    turn.try_push(value)
}

/// Receives the oldest item if there is one now; a queue without items says
/// whether it is closed or only empty.
pub fn try_recv<S: Receiver>(turn: &mut Turn<'_, S>) -> (r: Result<u64, PopError>)
    ensures
        r == old(turn)@.pop_result(),
        final(turn)@ == old(turn)@.pop(),
        final(turn).shared() == old(turn).shared(),
        final(turn).handle() == old(turn).handle(),
{
    turn.try_pop()
}

/// Begins a send that may suspend: the suspension object holds `value` until
/// [`poll_send`] has put it into the queue or found the channel closed.
pub fn send<S: AsyncSender>(s: &S, value: u64) -> (push: Push)
    ensures
        push.value() == Some(value),
{
    s.queue().push(value)
}

/// Begins a receive that may suspend; [`poll_recv`] resumes it.
pub fn recv<S: AsyncReceiver>(s: &S) -> Pop {
    s.queue().pop()
}

/// One resumption of a suspended send. With room the value becomes the last
/// item and the send resolves; on a closed queue it resolves with the value
/// handed back; on a full queue the value stays held, `waker` is registered
/// and the send is pending.
pub fn poll_send<S: AsyncSender>(turn: &mut Turn<'_, S>, push: &mut Push, waker: &Waker) -> (r:
    Poll<Result<(), PushError>>)
    requires
        old(push).value() is Some,
    ensures
        r == old(turn)@.poll_push_result(old(push).value().unwrap()),
        final(turn)@ == old(turn)@.poll_push(old(push).value().unwrap()),
        final(push).value() == (if r is Pending {
            old(push).value()
        } else {
            None
        }),
        final(turn).shared() == old(turn).shared(),
        final(turn).handle() == old(turn).handle(),
{
    turn.poll_push(push, waker)
}

/// One resumption of a suspended receive. `waker` is registered first, then
/// the pop is tried: with an item the receive resolves with it, on a closed
/// queue without items it resolves as closed, and on an open queue without
/// items it is pending.
pub fn poll_recv<S: AsyncReceiver>(turn: &mut Turn<'_, S>, pop: &mut Pop, waker: &Waker) -> (r:
    Poll<Result<u64, PopError>>)
    ensures
        r == old(turn)@.poll_pop_result(),
        final(turn)@ == old(turn)@.poll_pop(),
        final(turn).shared() == old(turn).shared(),
        final(turn).handle() == old(turn).handle(),
{
    turn.poll_pop(pop, waker)
}

} // verus!
