//! FIFO task queue with blocking and non-blocking consumers and an explicit
//! close signal.

use crate::sync::condvar_new;
use crate::sync::guard_mut;
use crate::sync::mutex_lock;
use crate::sync::mutex_new;
use crate::sync::notify_all;
use crate::sync::notify_one;
use crate::types::Task;
use crate::types::TaskId;
use std::collections::VecDeque;
use std::sync::Condvar;
use std::sync::Mutex;
use std::sync::MutexGuard;
use vstd::prelude::*;

verus! {

/// Mathematical model of a queue: the waiting tasks, oldest first, and
/// whether the queue has been closed.
pub struct QueueModel {
    pub items: Seq<Task>,
    pub closed: bool,
}

impl QueueModel {
    /// The queue as it is created: no tasks, open.
    pub open spec fn empty() -> QueueModel {
        QueueModel { items: Seq::empty(), closed: false }
    }

    /// The queue after an attempt to enqueue `task`: appended at the tail
    /// while the queue is open, refused once it is closed.
    pub open spec fn push(self, task: Task) -> QueueModel {
        if self.closed {
            self
        } else {
            QueueModel { items: self.items.push(task), closed: self.closed }
        }
    }

    /// The task a dequeue hands out: the head, if there is one.
    pub open spec fn front(self) -> Option<Task> {
        if self.items.len() == 0 {
            None
        } else {
            Some(self.items[0])
        }
    }

    /// The queue after a dequeue: the head is gone, if there was one.
    pub open spec fn pop(self) -> QueueModel {
        if self.items.len() == 0 {
            self
        } else {
            QueueModel { items: self.items.subrange(1, self.items.len() as int), closed: self.closed }
        }
    }

    /// The queue after `close`: same tasks, closed for good.
    pub open spec fn close(self) -> QueueModel {
        QueueModel { items: self.items, closed: true }
    }

    /// Whether a blocking consumer has to wait: there is nothing to hand out
    /// and more may still come.
    pub open spec fn must_wait(self) -> bool {
        self.items.len() == 0 && !self.closed
    }
}

/// One operation on a queue, as some thread performs it while it holds the
/// queue's lock.
pub enum QueueOp {
    /// An attempt to enqueue a task.
    Push(Task),
    /// A dequeue, blocking or not: a blocking consumer performs it once its
    /// wait is over.
    Pop,
    /// A close.
    Close,
}

impl QueueModel {
    /// The queue after `op`.
    pub open spec fn apply(self, op: QueueOp) -> QueueModel {
        match op {
            QueueOp::Push(task) => self.push(task),
            QueueOp::Pop => self.pop(),
            QueueOp::Close => self.close(),
        }
    }

    /// The queue after the operations `ops`, performed in this order.
    pub open spec fn run(self, ops: Seq<QueueOp>) -> QueueModel
        decreases ops.len(),
    {
        if ops.len() == 0 {
            self
        } else {
            self.apply(ops[0]).run(ops.drop_first())
        }
    }

    /// The tasks that the pushes among `ops` got accepted, in order.
    pub open spec fn accepted(self, ops: Seq<QueueOp>) -> Seq<Task>
        decreases ops.len(),
    {
        if ops.len() == 0 {
            Seq::empty()
        } else {
            let later = self.apply(ops[0]).accepted(ops.drop_first());
            match ops[0] {
                QueueOp::Push(task) => if self.closed {
                    later
                } else {
                    seq![task] + later
                },
                _ => later,
            }
        }
    }

    /// The tasks that the dequeues among `ops` handed out, in order, over
    /// all consumers.
    pub open spec fn delivered(self, ops: Seq<QueueOp>) -> Seq<Task>
        decreases ops.len(),
    {
        if ops.len() == 0 {
            Seq::empty()
        } else {
            let later = self.apply(ops[0]).delivered(ops.drop_first());
            match ops[0] {
                QueueOp::Pop => match self.front() {
                    Some(task) => seq![task] + later,
                    None => later,
                },
                _ => later,
            }
        }
    }
}

/// The identifiers of `tasks`, in order.
pub open spec fn task_ids(tasks: Seq<Task>) -> Seq<TaskId> {
    tasks.map_values(|task: Task| task.id)
}

/// Conservation: whatever operations are performed in whatever order, the
/// tasks queued at the start followed by the tasks accepted since are
/// exactly the tasks handed out followed by the tasks still queued. No task
/// is lost, duplicated or overtaken.
pub proof fn queue_conserves_tasks(start: QueueModel, ops: Seq<QueueOp>)
    ensures
        start.items + start.accepted(ops) == start.delivered(ops) + start.run(ops).items,
    decreases ops.len(),
{
    if ops.len() > 0 {
        let next = start.apply(ops[0]);
        let rest = ops.drop_first();
        queue_conserves_tasks(next, rest);
        if ops[0] is Pop && start.items.len() > 0 {
            // The head moves from the queue to the tasks handed out.
            let head = seq![start.items[0]];
            let delivered = next.delivered(rest);
            let queued = next.run(rest).items;
            assert(head + (delivered + queued) =~= (head + delivered) + queued);
        }
    }
}

/// Exactly-once delivery: on a queue that starts empty, after any
/// operations by any number of producers and consumers, the tasks handed
/// out are a prefix of the tasks accepted and the rest is still queued. The
/// queue is empty exactly when every accepted task has been handed out, and
/// then the identifiers handed out are, as a multiset, the identifiers
/// accepted. If no identifier was accepted twice, none is handed out twice.
pub proof fn delivery_is_exactly_once(ops: Seq<QueueOp>)
    ensures
        ({
            let start = QueueModel::empty();
            let accepted = start.accepted(ops);
            let delivered = start.delivered(ops);
            let queued = start.run(ops).items;
            &&& accepted == delivered + queued
            &&& delivered.len() == accepted.len() <==> queued.len() == 0
            &&& queued.len() == 0 ==> task_ids(delivered).to_multiset() == task_ids(
                accepted,
            ).to_multiset()
            &&& task_ids(accepted).no_duplicates() ==> task_ids(delivered).no_duplicates()
        }),
{
    let start = QueueModel::empty();
    let accepted = start.accepted(ops);
    let delivered = start.delivered(ops);
    let queued = start.run(ops).items;
    queue_conserves_tasks(start, ops);
    if task_ids(accepted).no_duplicates() {
        assert forall|i: int, j: int|
            0 <= i < task_ids(delivered).len() && 0 <= j < task_ids(delivered).len() && i
                != j implies task_ids(delivered)[i] != task_ids(delivered)[j] by {
            assert(task_ids(accepted)[i] == accepted[i].id);
            assert(task_ids(accepted)[j] == accepted[j].id);
        }
    }
}

/// Shutdown: once a queue is closed it stays closed whatever happens next,
/// no later push is accepted, no consumer has to wait, and the consumers
/// are handed only tasks that were queued when it was closed, in order. If
/// none was queued, every consumer is handed nothing.
pub proof fn close_is_final(closed: QueueModel, ops: Seq<QueueOp>)
    requires
        closed.closed,
    ensures
        closed.run(ops).closed,
        !closed.run(ops).must_wait(),
        closed.accepted(ops) == Seq::<Task>::empty(),
        closed.delivered(ops) + closed.run(ops).items == closed.items,
        closed.items.len() == 0 ==> closed.delivered(ops) == Seq::<Task>::empty(),
    decreases ops.len(),
{
    queue_conserves_tasks(closed, ops);
    if ops.len() > 0 {
        close_is_final(closed.apply(ops[0]), ops.drop_first());
    }
}

/// Wake-up condition: a push that an open queue accepts and a close both
/// end every consumer's wait, and a consumer that waited on an empty queue
/// is handed the very task that was pushed. (How soon a woken thread runs
/// is up to the scheduler.)
pub proof fn push_and_close_end_the_wait(waiting: QueueModel, task: Task)
    requires
        waiting.must_wait(),
    ensures
        !waiting.push(task).must_wait(),
        waiting.push(task).front() == Some(task),
        !waiting.close().must_wait(),
        waiting.close().front() == None::<Task>,
{
}

/// The state a `TaskQueue` guards: the queued tasks and the close flag.
pub struct TaskQueueState {
    queue: VecDeque<Task>,
    closed: bool,
}

impl View for TaskQueueState {
    type V = QueueModel;

    closed spec fn view(&self) -> QueueModel {
        QueueModel { items: self.queue@, closed: self.closed }
    }
}

impl TaskQueueState {
    /// An empty, open queue.
    pub fn new() -> (state: TaskQueueState)
        ensures
            state@ == QueueModel::empty(),
    {
        TaskQueueState { queue: VecDeque::new(), closed: false }
    }

    /// Appends `task` at the tail. A closed queue refuses it and hands it
    /// back unchanged.
    pub fn push(&mut self, task: Task) -> (result: Result<(), Task>)
        ensures
            final(self)@ == old(self)@.push(task),
            old(self)@.closed ==> result == Err::<(), Task>(task),
            !old(self)@.closed ==> result == Ok::<(), Task>(()),
            !old(self)@.closed ==> !final(self)@.must_wait(),
    {
        if self.closed {
            return Err(task);
        }
        self.queue.push_back(task);
        Ok(())
    }

    /// Removes and returns the head, if there is one.
    pub fn try_pop(&mut self) -> (task: Option<Task>)
        ensures
            task == old(self)@.front(),
            final(self)@ == old(self)@.pop(),
    {
        self.queue.pop_front()
    }

    /// Closes the queue. The queued tasks stay available to consumers.
    pub fn close(&mut self)
        ensures
            final(self)@ == old(self)@.close(),
            !final(self)@.must_wait(),
    {
        self.closed = true;
    }

    /// Number of queued tasks.
    pub fn len(&self) -> (n: usize)
        ensures
            n == self@.items.len(),
    {
        self.queue.len()
    }

    /// Whether the queue has been closed.
    pub fn is_closed(&self) -> (closed: bool)
        ensures
            closed == self@.closed,
    {
        self.closed
    }

    /// Whether a blocking consumer has to wait: the queue is empty and open.
    pub fn must_wait(&self) -> (wait: bool)
        ensures
            wait == self@.must_wait(),
    {
        self.queue.len() == 0 && !self.closed
    }
}

/// `Condvar::wait_while` on the queue's condition variable: releases the lock
/// and blocks until the guarded state no longer has to wait, re-checking
/// after every wake-up, then returns holding the lock again. The check and
/// the wait are one atomic step with respect to the lock, so a push or close
/// made after the check is never missed. Nothing is claimed about the state
/// found; a poisoned mutex is fatal.
#[verifier::external_body]
fn wait_for_work<'a>(available: &Condvar, guard: MutexGuard<'a, TaskQueueState>) -> (ready:
    MutexGuard<'a, TaskQueueState>) {
    available.wait_while(guard, |state| state.must_wait()).expect("task queue mutex poisoned")
}

/// A FIFO queue of tasks shared between threads.
///
/// Every method takes the queue's lock, performs exactly one operation of
/// `TaskQueueState` and releases the lock. What a call finds depends on the
/// other threads, so the contracts here state only what holds for every
/// state the call may find; the exact effect is the contract of the state
/// operation it performs.
pub struct TaskQueue {
    inner: Mutex<TaskQueueState>,
    available: Condvar,
}

impl TaskQueue {
    /// An empty, open queue.
    pub fn new() -> (queue: TaskQueue) {
        TaskQueue { inner: mutex_new(TaskQueueState::new()), available: condvar_new() }
    }

    /// Performs `TaskQueueState::push` and, if the task was accepted, wakes
    /// one blocked consumer. A refused task comes back unchanged.
    pub fn push(&self, task: Task) -> (result: Result<(), Task>)
        ensures
            result is Err ==> result == Err::<(), Task>(task),
    {
        let mut guard = mutex_lock(&self.inner);
        let state = guard_mut(&mut guard);
        let result = state.push(task);
        if result.is_ok() {
            notify_one(&self.available);
        }
        result
    }

    /// Performs `TaskQueueState::try_pop`; never blocks.
    pub fn try_pop(&self) -> (task: Option<Task>) {
        let mut guard = mutex_lock(&self.inner);
        let state = guard_mut(&mut guard);
        state.try_pop()
    }

    /// Blocks until a task is available or the queue is closed and drained,
    /// then performs `TaskQueueState::try_pop`. `None` is the shutdown
    /// signal.
    pub fn pop_blocking_or_closed(&self) -> (task: Option<Task>) {
        let guard = mutex_lock(&self.inner);
        let mut ready = wait_for_work(&self.available, guard);
        let state = guard_mut(&mut ready);
        state.try_pop()
    }

    /// Performs `TaskQueueState::close` and wakes every blocked consumer.
    pub fn close(&self) {
        let mut guard = mutex_lock(&self.inner);
        let state = guard_mut(&mut guard);
        state.close();
        notify_all(&self.available);
    }

    /// Number of queued tasks at the moment of the call; advisory, since
    /// other threads may change it at once.
    pub fn len(&self) -> (n: usize) {
        let mut guard = mutex_lock(&self.inner);
        let state = guard_mut(&mut guard);
        state.len()
    }
}

} // verus!
