//! One producer, one consumer.

use vstd::prelude::*;
use std::sync::Arc;
use crate::shared::Shared;
use crate::waker_queue::MAX_CAPACITY;
use crate::AsyncQueue;

verus! {

/// A channel for at most `size` items.
pub fn bounded(size: usize) -> (ends: (Sender, Receiver))
    requires
        0 < size <= MAX_CAPACITY,
    ensures
        ends.0.channel() == ends.1.channel(),
        ends.0.channel().capacity() == Some(size),
{
    let queue = Arc::new(Shared::bounded(size));
    (Sender { queue: queue.clone() }, Receiver { queue })
}

/// A channel without a bound.
pub fn unbounded() -> (ends: (Sender, Receiver))
    ensures
        ends.0.channel() == ends.1.channel(),
        ends.0.channel().capacity() == None::<usize>,
{
    let queue = Arc::new(Shared::unbounded());
    (Sender { queue: queue.clone() }, Receiver { queue })
}

/// The producer's handle. There is one per channel.
pub struct Sender {
    queue: Arc<Shared>,
}

impl AsyncQueue for Sender {
    closed spec fn channel(&self) -> Shared {
        *self.queue
    }

    fn queue(&self) -> &Shared {
        &*self.queue
    }
}

impl crate::Sender for Sender {

}

impl crate::AsyncSender for Sender {

}

/// The consumer's handle. There is one per channel.
pub struct Receiver {
    queue: Arc<Shared>,
}

impl Receiver {
    /// Closes the channel: what the consumer does when it goes away. Items
    /// that are in the queue can still be received.
    pub fn close(&self) {
        self.queue.close();
    }
}

impl AsyncQueue for Receiver {
    closed spec fn channel(&self) -> Shared {
        *self.queue
    }

    fn queue(&self) -> &Shared {
        &*self.queue
    }
}

impl crate::Receiver for Receiver {

}

impl crate::AsyncReceiver for Receiver {

}

} // verus!
