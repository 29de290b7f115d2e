//! Model of one background executor: an ordered queue of tasks with an
//! idempotent stop. The host application runs one dedicated thread per
//! executor that drains the queue in order; once stopped, further
//! submissions are dropped silently, because during teardown nothing can
//! observe the rejection.

use vstd::prelude::*;

verus! {

/// Mathematical image of a [`TaskQueue`].
pub ghost struct ExecutorModel<T> {
    pub pending: Seq<T>,
    pub stopped: bool,
}

/// FIFO task queue with a stop flag, standing for one single-threaded
/// executor.
pub struct TaskQueue<T> {
    pending: Vec<T>,
    stopped: bool,
}

impl<T> View for TaskQueue<T> {
    type V = ExecutorModel<T>;

    closed spec fn view(&self) -> ExecutorModel<T> {
        ExecutorModel { pending: self.pending@, stopped: self.stopped }
    }
}

impl<T> TaskQueue<T> {
    pub fn new() -> (r: TaskQueue<T>)
        ensures
            r@.pending == Seq::<T>::empty(),
            !r@.stopped,
    {
        TaskQueue { pending: Vec::new(), stopped: false }
    }

    /// Appends a task, unless the executor has been stopped, in which case
    /// the task is dropped silently.
    pub fn submit(&mut self, task: T)
        ensures
            final(self)@.stopped == old(self)@.stopped,
            old(self)@.stopped ==> final(self)@.pending == old(self)@.pending,
            !old(self)@.stopped ==> final(self)@.pending == old(self)@.pending.push(task),
    {
        if !self.stopped {
            self.pending.push(task);
        }
    }

    /// Stops the executor: queued-but-unexecuted tasks are dropped rather
    /// than run, and later submissions are ignored. Idempotent.
    pub fn stop_and_join(&mut self)
        ensures
            final(self)@.stopped,
            final(self)@.pending == Seq::<T>::empty(),
    {
        self.stopped = true;
        self.pending.clear();
    }

    pub fn is_stopped(&self) -> (r: bool)
        ensures
            r == self@.stopped,
    {
        self.stopped
    }

    /// Removes and returns all queued tasks in submission order; the host
    /// executor thread calls this to obtain the work it must perform.
    pub fn take(&mut self) -> (r: Vec<T>)
        ensures
            r@ == old(self)@.pending,
            final(self)@.pending == Seq::<T>::empty(),
            final(self)@.stopped == old(self)@.stopped,
    {
        let mut drained: Vec<T> = Vec::new();
        core::mem::swap(&mut self.pending, &mut drained);
        drained
    }
}

} // verus!
