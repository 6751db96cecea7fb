//! The channel as a mathematical value, and the steps that its operations take
//! on that value.

use vstd::prelude::*;

verus! {

/// Why a push was refused. The value that was offered comes back inside.
#[derive(Clone, Copy, Debug, PartialEq, Eq)]
pub enum PushError {
    /// The queue holds as many items as its capacity allows and is not closed.
    Full(u64),
    /// The queue is closed.
    Closed(u64),
}

/// Why a pop returned no item.
#[derive(Clone, Copy, Debug, PartialEq, Eq)]
pub enum PopError {
    /// The queue holds no item and is not closed.
    Empty,
    /// The queue holds no item and is closed.
    Closed,
}

/// What one resumption of a suspension object reports.
#[derive(Debug, PartialEq, Eq)]
pub enum Poll<T> {
    /// The operation has resolved, with this result.
    Ready(T),
    /// The operation could not complete yet; the continuation is registered.
    Pending,
}

impl PushError {
    /// The value that could not be pushed.
    pub open spec fn value(self) -> u64 {
        match self {
            PushError::Full(v) => v,
            PushError::Closed(v) => v,
        }
    }

    /// Hands back the value that could not be pushed.
    pub fn into_inner(self) -> (v: u64)
        ensures
            v == self.value(),
    {
        match self {
            PushError::Full(v) => v,
            PushError::Closed(v) => v,
        }
    }
}

/// A queue with its waker slot, as a value.
pub struct QueueState {
    /// The items held, oldest first.
    pub items: Seq<u64>,
    /// The bound on the number of items, `None` when there is none.
    pub capacity: Option<usize>,
    /// Whether the queue has been closed.
    pub closed: bool,
    /// Whether the waker slot holds a continuation.
    pub registered: bool,
}

impl QueueState {
    /// A new queue: no item, open, nothing registered.
    pub open spec fn fresh(capacity: Option<usize>) -> QueueState {
        QueueState { items: Seq::empty(), capacity, closed: false, registered: false }
    }

    /// A bound is positive and never exceeded.
    pub open spec fn wf(self) -> bool {
        self.capacity matches Some(c) ==> 0 < c && self.items.len() <= c
    }

    pub open spec fn is_empty(self) -> bool {
        self.items.len() == 0
    }

    /// The queue is bounded and holds as many items as its bound.
    pub open spec fn is_full(self) -> bool {
        self.capacity matches Some(c) && self.items.len() == c
    }

    /// What a push of `value` returns: a closed queue refuses first, then a
    /// full one.
    pub open spec fn push_result(self, value: u64) -> Result<(), PushError> {
        if self.closed {
            Err(PushError::Closed(value))
        } else if self.is_full() {
            Err(PushError::Full(value))
        } else {
            Ok(())
        }
    }

    /// The queue after a push of `value`: the value is last where the push
    /// succeeds, and nothing has changed where it does not.
    pub open spec fn push(self, value: u64) -> QueueState {
        if self.push_result(value) is Ok {
            QueueState { items: self.items.push(value), ..self }
        } else {
            self
        }
    }

    /// What a pop returns: the oldest item while there is one, also after the
    /// queue was closed.
    pub open spec fn pop_result(self) -> Result<u64, PopError> {
        if self.items.len() > 0 {
            Ok(self.items[0])
        } else if self.closed {
            Err(PopError::Closed)
        } else {
            Err(PopError::Empty)
        }
    }

    /// The queue after a pop: without its oldest item, if it had one.
    pub open spec fn pop(self) -> QueueState {
        if self.items.len() > 0 {
            QueueState { items: self.items.drop_first(), ..self }
        } else {
            self
        }
    }

    /// The slot after a registration: it holds a continuation, whatever it held.
    pub open spec fn register(self) -> QueueState {
        QueueState { registered: true, ..self }
    }

    /// The slot after a notification: it is empty.
    pub open spec fn wake(self) -> QueueState {
        QueueState { registered: false, ..self }
    }

    /// Notifies if `wake` holds.
    pub open spec fn wake_if(self, wake: bool) -> QueueState {
        if wake {
            self.wake()
        } else {
            self
        }
    }

    /// The queue after it was closed: the flag is set and the slot notified.
    pub open spec fn close(self) -> QueueState {
        QueueState { closed: true, registered: false, ..self }
    }

    /// A push that notifies afterwards if it succeeded and `wake` holds.
    pub open spec fn push_wake(self, value: u64, wake: bool) -> QueueState {
        self.push(value).wake_if(self.push_result(value) is Ok && wake)
    }

    /// A pop that notifies afterwards if it succeeded and `wake` holds.
    pub open spec fn pop_wake(self, wake: bool) -> QueueState {
        self.pop().wake_if(self.pop_result() is Ok && wake)
    }

    /// What one resumption of a suspended push of `value` reports: pending on
    /// a full queue, resolved otherwise.
    pub open spec fn poll_push_result(self, value: u64) -> Poll<Result<(), PushError>> {
        match self.push_result(value) {
            Ok(()) => Poll::Ready(Ok(())),
            Err(PushError::Closed(v)) => Poll::Ready(Err(PushError::Closed(v))),
            Err(PushError::Full(_)) => Poll::Pending,
        }
    }

    /// The queue after one resumption of a suspended push of `value`: the push
    /// is tried, and a continuation is registered where the queue was full.
    pub open spec fn poll_push(self, value: u64) -> QueueState {
        if self.push_result(value) is Err && !self.closed {
            self.register()
        } else {
            self.push(value)
        }
    }

    /// What one resumption of a suspended pop reports: pending on an open
    /// queue without items, resolved otherwise.
    pub open spec fn poll_pop_result(self) -> Poll<Result<u64, PopError>> {
        match self.pop_result() {
            Ok(v) => Poll::Ready(Ok(v)),
            Err(PopError::Closed) => Poll::Ready(Err(PopError::Closed)),
            Err(PopError::Empty) => Poll::Pending,
        }
    }

    /// The queue after one resumption of a suspended pop: a continuation is
    /// registered first, then the pop is tried.
    pub open spec fn poll_pop(self) -> QueueState {
        self.register().pop()
    }
}

} // verus!
