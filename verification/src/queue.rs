//! The task queue: the single hand-off point between the generator and the
//! worker pool.
//!
//! The queue is modelled directly: a FIFO buffer of pending tasks together
//! with a closed flag, plus two ghost histories (everything ever enqueued,
//! everything ever handed out). The histories let the delivery discipline be
//! stated and proved: what has been handed out is exactly a prefix of what
//! was enqueued, so no task is duplicated, lost, or reordered, and a task
//! handed out is moved to its caller, which owns it exclusively from then on.

use vstd::prelude::*;

use crate::task::Task;

verus! {

/// What one attempt to take a task from the queue yields.
pub enum DequeueResult {
    /// A task was handed out; the caller now owns it exclusively.
    Item { task: Task },
    /// The queue is closed and drained: end of stream, no task will follow.
    EndOfStream,
    /// The queue is open but momentarily empty; a caller would suspend and
    /// ask again once something arrives.
    WouldWait,
}

/// The error the producer sees when it enqueues after the queue has closed:
/// no consumer remains to receive the task.
#[derive(PartialEq, Eq, Structural, Debug, Clone, Copy)]
pub enum EnqueueError {
    QueueClosedWithNoConsumers,
}

/// A FIFO queue of tasks with exactly-once hand-off.
pub struct TaskQueue {
    /// Tasks enqueued and not yet handed out, oldest first.
    items: Vec<Task>,
    /// Whether the queue has been closed. Once closed, enqueuing fails and
    /// consumers drain the remaining items, then observe end-of-stream.
    closed: bool,
    /// Every task ever enqueued, in order.
    enqueued_history: Ghost<Seq<Task>>,
    /// Every task ever handed out, in order.
    delivered_history: Ghost<Seq<Task>>,
}

impl TaskQueue {
    /// Every task ever enqueued, in order.
    pub closed spec fn enqueued(self) -> Seq<Task> {
        self.enqueued_history@
    }

    /// Every task ever handed out to a consumer, in order.
    pub closed spec fn delivered(self) -> Seq<Task> {
        self.delivered_history@
    }

    /// Tasks enqueued and not yet handed out, oldest first.
    pub closed spec fn pending(self) -> Seq<Task> {
        self.items@
    }

    /// Whether the queue has been closed.
    pub closed spec fn is_closed(self) -> bool {
        self.closed
    }

    /// The queue's invariant: what was enqueued is exactly what has been
    /// delivered followed by what is still pending.
    pub open spec fn wf(self) -> bool {
        self.enqueued() == self.delivered() + self.pending()
    }

    /// A fresh, open, empty queue with empty histories.
    pub fn new() -> (q: TaskQueue)
        ensures
            q.wf(),
            !q.is_closed(),
            q.enqueued() == Seq::<Task>::empty(),
            q.delivered() == Seq::<Task>::empty(),
            q.pending() == Seq::<Task>::empty(),
    {
        let q = TaskQueue {
            items: Vec::new(),
            closed: false,
            enqueued_history: Ghost(Seq::empty()),
            delivered_history: Ghost(Seq::empty()),
        };
        proof {
            assert(q.enqueued() =~= q.delivered() + q.pending());
        }
        q
    }

    /// How many tasks are pending.
    pub fn len(&self) -> (n: usize)
        ensures
            n == self.pending().len(),
    {
        self.items.len()
    }

    /// Adds a task at the back of the queue. Never blocks; fails exactly
    /// when the queue has closed, in which case the queue is unchanged and
    /// the producer must treat the condition as fatal.
    pub fn enqueue(&mut self, task: Task) -> (r: Result<(), EnqueueError>)
        requires
            old(self).wf(),
        ensures
            final(self).wf(),
            final(self).is_closed() == old(self).is_closed(),
            final(self).delivered() == old(self).delivered(),
            old(self).is_closed() ==> r is Err
                && r->Err_0 == EnqueueError::QueueClosedWithNoConsumers
                && *final(self) == *old(self),
            !old(self).is_closed() ==> r is Ok
                && final(self).enqueued() == old(self).enqueued().push(task)
                && final(self).pending() == old(self).pending().push(task),
    {
        if self.closed {
            return Err(EnqueueError::QueueClosedWithNoConsumers);
        }
        self.items.push(task);
        proof {
            self.enqueued_history@ = self.enqueued_history@.push(task);
            assert(self.enqueued() =~= self.delivered() + self.pending());
        }
        Ok(())
    }

    /// Takes the oldest pending task, if any. While the queue is open and
    /// empty the caller would wait; once the queue is closed and drained the
    /// caller observes end-of-stream.
    pub fn dequeue(&mut self) -> (r: DequeueResult)
        requires
            old(self).wf(),
        ensures
            final(self).wf(),
            final(self).is_closed() == old(self).is_closed(),
            final(self).enqueued() == old(self).enqueued(),
            old(self).pending().len() > 0 ==> (r matches DequeueResult::Item { task }
                && task == old(self).pending()[0]
                && final(self).pending() == old(self).pending().skip(1)
                && final(self).delivered() == old(self).delivered().push(task)),
            old(self).pending().len() == 0 ==> *final(self) == *old(self)
                && (if old(self).is_closed() {
                    r is EndOfStream
                } else {
                    r is WouldWait
                }),
    {
        if self.items.len() == 0 {
            if self.closed {
                return DequeueResult::EndOfStream;
            }
            return DequeueResult::WouldWait;
        }
        let task = self.items.remove(0);
        proof {
            self.delivered_history@ = self.delivered_history@.push(task);
            assert(self.items@ =~= old(self).items@.skip(1));
            assert(self.enqueued() =~= self.delivered() + self.pending());
        }
        DequeueResult::Item { task }
    }

    /// Closes the queue: no further task will be accepted, and consumers
    /// drain what is pending, then observe end-of-stream.
    pub fn close(&mut self)
        requires
            old(self).wf(),
        ensures
            final(self).wf(),
            final(self).is_closed(),
            final(self).enqueued() == old(self).enqueued(),
            final(self).delivered() == old(self).delivered(),
            final(self).pending() == old(self).pending(),
    {
        self.closed = true;
    }
}

/// Delivery is exactly-once: in any reachable queue, what has been handed
/// out is exactly the first `delivered().len()` tasks ever enqueued, each
/// once and in order, and everything enqueued is either already delivered or
/// still pending — nothing is duplicated and nothing is lost. Once the queue
/// is drained, delivered and enqueued coincide.
pub proof fn lemma_exactly_once_delivery(q: TaskQueue)
    requires
        q.wf(),
    ensures
        q.delivered() == q.enqueued().take(q.delivered().len() as int),
        q.enqueued() == q.delivered() + q.pending(),
        forall|i: int|
            0 <= i < q.delivered().len() ==> q.delivered()[i] == q.enqueued()[i],
        q.pending().len() == 0 ==> q.delivered() == q.enqueued(),
{
    assert(q.delivered() =~= q.enqueued().take(q.delivered().len() as int));
    if q.pending().len() == 0 {
        assert(q.delivered() =~= q.enqueued());
    }
}

} // verus!
