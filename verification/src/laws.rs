//! What holds of every run of the channel's operations.
//!
//! A run is a sequence of the five elementary steps. Each operation of
//! [`crate::WakerQueue`] and each resumption of a suspension object is one
//! such step or a few of them in a row, as its contract says.

use vstd::prelude::*;
use crate::state::{Poll, PopError, PushError, QueueState};

verus! {

/// One elementary step on a queue.
pub enum Step {
    /// An attempt to push this value.
    Push(u64),
    /// An attempt to pop.
    Pop,
    /// Closing the queue.
    Close,
    /// Registering a continuation.
    Register,
    /// Notifying the slot.
    Wake,
}

impl QueueState {
    /// The queue after one step.
    pub open spec fn step(self, step: Step) -> QueueState {
        match step {
            Step::Push(v) => self.push(v),
            Step::Pop => self.pop(),
            Step::Close => self.close(),
            Step::Register => self.register(),
            Step::Wake => self.wake(),
        }
    }

    /// The queue after the steps of `steps`, taken in order.
    pub open spec fn run(self, steps: Seq<Step>) -> QueueState
        decreases steps.len(),
    {
        if steps.len() == 0 {
            self
        } else {
            self.run(steps.drop_last()).step(steps.last())
        }
    }

    /// The values that the pushes of `steps` put into the queue, in order.
    pub open spec fn pushed(self, steps: Seq<Step>) -> Seq<u64>
        decreases steps.len(),
    {
        if steps.len() == 0 {
            Seq::empty()
        } else {
            let before = self.run(steps.drop_last());
            let earlier = self.pushed(steps.drop_last());
            match steps.last() {
                Step::Push(v) => if before.push_result(v) is Ok {
                    earlier.push(v)
                } else {
                    earlier
                },
                _ => earlier,
            }
        }
    }

    /// The values that the pops of `steps` took out of the queue, in order.
    pub open spec fn popped(self, steps: Seq<Step>) -> Seq<u64>
        decreases steps.len(),
    {
        if steps.len() == 0 {
            Seq::empty()
        } else {
            let before = self.run(steps.drop_last());
            let earlier = self.popped(steps.drop_last());
            match steps.last() {
                Step::Pop => match before.pop_result() {
                    Ok(v) => earlier.push(v),
                    Err(_) => earlier,
                },
                _ => earlier,
            }
        }
    }

    /// The queue after the values of `values` were pushed, in order.
    pub open spec fn push_all(self, values: Seq<u64>) -> QueueState
        decreases values.len(),
    {
        if values.len() == 0 {
            self
        } else {
            self.push_all(values.drop_last()).push(values.last())
        }
    }

    /// The queue after `n` pops.
    pub open spec fn pop_times(self, n: nat) -> QueueState
        decreases n,
    {
        if n == 0 {
            self
        } else {
            self.pop_times((n - 1) as nat).pop()
        }
    }
}

/// Every operation is a run of elementary steps: a push or a pop that may
/// notify is the push or the pop and then, if it succeeded and was asked to, a
/// notification; a suspended push that finds the queue full registers, and
/// else is the push; a suspended pop registers and then pops.
pub proof fn lemma_operations_are_runs(s: QueueState, value: u64, wake: bool)
    ensures
        s.push_wake(value, wake) == s.run(
            if s.push_result(value) is Ok && wake {
                seq![Step::Push(value), Step::Wake]
            } else {
                seq![Step::Push(value)]
            },
        ),
        s.pop_wake(wake) == s.run(
            if s.pop_result() is Ok && wake {
                seq![Step::Pop, Step::Wake]
            } else {
                seq![Step::Pop]
            },
        ),
        s.poll_push(value) == s.run(
            if s.poll_push_result(value) is Pending {
                seq![Step::Register]
            } else {
                seq![Step::Push(value)]
            },
        ),
        s.poll_pop() == s.run(seq![Step::Register, Step::Pop]),
{
    lemma_run_two(s, Step::Push(value), Step::Wake);
    lemma_run_two(s, Step::Pop, Step::Wake);
    lemma_run_two(s, Step::Register, Step::Pop);
    lemma_run_one(s, Step::Push(value));
    lemma_run_one(s, Step::Pop);
    lemma_run_one(s, Step::Register);
}

/// A run of one step is that step.
pub proof fn lemma_run_one(s: QueueState, a: Step)
    ensures
        s.run(seq![a]) == s.step(a),
{
    assert(seq![a].drop_last() == Seq::<Step>::empty());
    assert(s.run(Seq::<Step>::empty()) == s);
}

/// A run of two steps is the first step and then the second.
pub proof fn lemma_run_two(s: QueueState, a: Step, b: Step)
    ensures
        s.run(seq![a, b]) == s.step(a).step(b),
{
    assert(seq![a, b].drop_last() == seq![a]);
    lemma_run_one(s, a);
}

/// A bounded queue never holds more items than its capacity: whatever steps
/// are taken on a well-formed queue, the queue stays well-formed and keeps its
/// capacity.
pub proof fn lemma_run_keeps_bound(s: QueueState, steps: Seq<Step>)
    requires
        s.wf(),
    ensures
        s.run(steps).wf(),
        s.run(steps).capacity == s.capacity,
    decreases steps.len(),
{
    if steps.len() > 0 {
        lemma_run_keeps_bound(s, steps.drop_last());
    }
}

/// Closing is one-way: once a queue is closed, no run of steps opens it again.
pub proof fn lemma_closed_stays_closed(s: QueueState, steps: Seq<Step>)
    requires
        s.closed,
    ensures
        s.run(steps).closed,
    decreases steps.len(),
{
    if steps.len() > 0 {
        lemma_closed_stays_closed(s, steps.drop_last());
    }
}

/// Pushing `n` values into a new queue of capacity `n`: each push succeeds,
/// the queue then holds exactly these values and is full, and one more push
/// is refused as `Full` with its value handed back and the queue unchanged.
pub proof fn lemma_bounded_fills_up(n: usize, values: Seq<u64>, extra: u64)
    requires
        n > 0,
        values.len() == n,
    ensures
        forall|i: int|
            0 <= i < n ==> (#[trigger] QueueState::fresh(Some(n)).push_all(
                values.take(i),
            )).push_result(values[i]) is Ok,
        QueueState::fresh(Some(n)).push_all(values).items == values,
        QueueState::fresh(Some(n)).push_all(values).is_full(),
        QueueState::fresh(Some(n)).push_all(values).push_result(extra) == Err::<(), PushError>(
            PushError::Full(extra),
        ),
        QueueState::fresh(Some(n)).push_all(values).push(extra) == QueueState::fresh(
            Some(n),
        ).push_all(values),
{
    let s = QueueState::fresh(Some(n));
    assert forall|i: int| 0 <= i <= n implies {
        let t = #[trigger] s.push_all(values.take(i));
        t.items == values.take(i) && !t.closed && t.capacity == Some(n)
    } by {
        lemma_push_all_fits(s, values.take(i));
        assert(s.items + values.take(i) == values.take(i));
    }
    assert(values.take(n as int) == values);
}

/// Pushing values into an open queue that has room for all of them appends
/// them in order.
pub proof fn lemma_push_all_fits(s: QueueState, values: Seq<u64>)
    requires
        !s.closed,
        s.capacity matches Some(c) ==> s.items.len() + values.len() <= c,
    ensures
        s.push_all(values) == (QueueState { items: s.items + values, ..s }),
    decreases values.len(),
{
    if values.len() == 0 {
        assert(s.items + values == s.items);
    } else {
        lemma_push_all_fits(s, values.drop_last());
        assert(s.items + values == (s.items + values.drop_last()).push(values.last()));
    }
}

/// First in, first out: over any run of steps, what was in the queue at the
/// start followed by what was pushed equals what was popped followed by what
/// is in the queue at the end. From an empty queue the popped values are
/// therefore a prefix of the pushed ones, in the order of the pushes.
pub proof fn lemma_fifo(s: QueueState, steps: Seq<Step>)
    ensures
        s.items + s.pushed(steps) == s.popped(steps) + s.run(steps).items,
    decreases steps.len(),
{
    if steps.len() == 0 {
        assert(s.items + s.pushed(steps) == s.items);
        assert(s.popped(steps) + s.run(steps).items == s.items);
    } else {
        let init = steps.drop_last();
        lemma_fifo(s, init);
        let before = s.run(init);
        match steps.last() {
            Step::Push(v) => {
                if before.push_result(v) is Ok {
                    assert(s.items + s.pushed(init).push(v) == (s.items + s.pushed(init)).push(v));
                    assert(s.popped(init) + before.items.push(v) == (s.popped(init)
                        + before.items).push(v));
                }
            },
            Step::Pop => {
                if before.items.len() > 0 {
                    assert(s.popped(init).push(before.items[0]) + before.items.drop_first()
                        == s.popped(init) + before.items);
                }
            },
            _ => {},
        }
    }
}

/// After a close, whatever steps follow, every push is refused as `Closed`
/// with its value handed back, and leaves the queue as it was.
pub proof fn lemma_closed_refuses_push(s: QueueState, steps: Seq<Step>, value: u64)
    ensures
        s.close().run(steps).push_result(value) == Err::<(), PushError>(PushError::Closed(value)),
        s.close().run(steps).push(value) == s.close().run(steps),
{
    lemma_closed_stays_closed(s.close(), steps);
}

/// A closed queue drains: the pops return the items that were enqueued, oldest
/// first, and once there is none left a pop returns `Closed`.
pub proof fn lemma_closed_drains(s: QueueState, n: nat)
    requires
        s.closed,
        n <= s.items.len(),
    ensures
        s.pop_times(n) == (QueueState { items: s.items.skip(n as int), ..s }),
        n < s.items.len() ==> s.pop_times(n).pop_result() == Ok::<u64, PopError>(s.items[n as int]),
        n == s.items.len() ==> s.pop_times(n).pop_result() == Err::<u64, PopError>(
            PopError::Closed,
        ),
    decreases n,
{
    if n == 0 {
        assert(s.items.skip(0) == s.items);
    } else {
        lemma_closed_drains(s, (n - 1) as nat);
        assert(s.items.skip(n - 1).drop_first() == s.items.skip(n as int));
    }
}

/// No lost wakeup. A pop that found an open queue empty is pending with its
/// continuation registered. When a value is then pushed with the
/// notify-if-it-was-empty policy, the push succeeds, the slot is notified, and
/// the next resumption of the pop resolves with exactly that value.
pub proof fn lemma_pending_pop_is_woken(s: QueueState, value: u64)
    requires
        s.wf(),
        s.poll_pop_result() is Pending,
    ensures
        s.poll_pop().registered,
        s.poll_pop().push_result(value) is Ok,
        !s.poll_pop().push_wake(value, s.poll_pop().is_empty()).registered,
        s.poll_pop().push_wake(value, s.poll_pop().is_empty()).poll_pop_result() == Poll::Ready(
            Ok::<u64, PopError>(value),
        ),
{
    let w = s.poll_pop();
    assert(w.items.len() == 0);
    assert(w.push(value).items[0] == value);
}

/// No lost wakeup, over any number of producers' steps. While a pop is
/// pending, producers push with the notify-if-it-was-empty policy or close the
/// queue. Then, as soon as the pop has a reason to resolve (an item, or the
/// closed flag), the slot has been notified since the registration.
pub proof fn lemma_wakeup_not_lost(s: QueueState, produced: Seq<Option<u64>>)
    requires
        s.wf(),
        s.poll_pop_result() is Pending,
    ensures
        !(producers(s.poll_pop(), produced).poll_pop_result() is Pending) ==> !producers(
            s.poll_pop(),
            produced,
        ).registered,
        producers(s.poll_pop(), produced).poll_pop_result() is Pending ==> producers(
            s.poll_pop(),
            produced,
        ) == s.poll_pop(),
    decreases produced.len(),
{
    if produced.len() > 0 {
        lemma_wakeup_not_lost(s, produced.drop_last());
        lemma_producers_keep_bound(s.poll_pop(), produced.drop_last());
    }
}

/// The queue after the producers' steps of `produced`, in order: `Some(v)` is a
/// push of `v` that notifies if the queue was empty, `None` is a close.
pub open spec fn producers(s: QueueState, produced: Seq<Option<u64>>) -> QueueState
    decreases produced.len(),
{
    if produced.len() == 0 {
        s
    } else {
        let before = producers(s, produced.drop_last());
        match produced.last() {
            Some(v) => before.push_wake(v, before.is_empty()),
            None => before.close(),
        }
    }
}

/// Producers' steps keep a well-formed queue well-formed.
pub proof fn lemma_producers_keep_bound(s: QueueState, produced: Seq<Option<u64>>)
    requires
        s.wf(),
    ensures
        producers(s, produced).wf(),
    decreases produced.len(),
{
    if produced.len() > 0 {
        lemma_producers_keep_bound(s, produced.drop_last());
    }
}

/// A push that found the queue full is pending with its value held and its
/// continuation registered. Once a pop has taken an item out, the next
/// resumption resolves with success and the value that was held is the last
/// item of the queue.
pub proof fn lemma_pending_push_resumes(s: QueueState, value: u64)
    requires
        s.wf(),
        s.poll_push_result(value) is Pending,
    ensures
        s.poll_push(value).registered,
        s.poll_push(value).items == s.items,
        s.poll_push(value).pop_result() == Ok::<u64, PopError>(s.items[0]),
        s.poll_push(value).pop().poll_push_result(value) == Poll::Ready(
            Ok::<(), PushError>(()),
        ),
        s.poll_push(value).pop().poll_push(value).items == s.items.drop_first().push(value),
{
}

} // verus!
