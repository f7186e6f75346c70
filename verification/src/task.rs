//! Control-loop task states, and the wrapper that binds an action pipeline
//! to its lock-table registration.

use vstd::prelude::*;

use crate::actions::{Action, ActionTask};
use crate::lock_table::{GroupLockTable, LockGuard};

verus! {

/// What a task asks of the driver after one poll.  There is no failed state:
/// transient failures are absorbed into `Pending` with a backoff, and a task
/// that returned `Terminated` is removed and never polled again.
#[derive(Clone, Copy, Debug, PartialEq, Eq, Structural)]
pub enum TaskState {
    /// Poll again after the given delay in milliseconds, or immediately when
    /// no delay is given.
    Pending(Option<u64>),
    /// Finished for good: the driver removes the task and never polls it
    /// again.
    Terminated,
}

/// An action pipeline bound to the lock-table guard acquired for it.  On the
/// pipeline's terminal outcome — success or failure alike — the guard is
/// released exactly once, then the task terminates.
pub struct ActionTaskWithLocks {
    locks: LockGuard,
    released: bool,
    task: ActionTask,
}

impl ActionTaskWithLocks {
    pub closed spec fn spec_task(self) -> ActionTask {
        self.task
    }

    /// Task id under which the guard holds its lock-table entry, for as long
    /// as the guard has not been released.
    pub closed spec fn spec_lock_owner(self) -> Option<u64> {
        if self.released {
            None
        } else {
            Some(self.locks.spec_task_id())
        }
    }

    pub fn new(locks: LockGuard, task: ActionTask) -> (r: Self)
        ensures
            r.spec_task() == task,
            r.spec_lock_owner() == Some(locks.spec_task_id()),
    {
        ActionTaskWithLocks { locks, released: false, task }
    }

    pub fn id(&self) -> (r: u64)
        ensures
            r == self.spec_task().spec_task_id(),
    {
        self.task.task_id()
    }

    /// The pending action of the wrapped pipeline.
    pub fn current(&self) -> (r: Option<&Action>)
        ensures
            self.spec_task().spec_terminal() ==> r is None,
            !self.spec_task().spec_terminal() ==> (r matches Some(a)
                && *a == self.spec_task().spec_actions()[self.spec_task().spec_cursor()]),
    {
        self.task.current()
    }

    /// Records the outcome of the pending action.  When that outcome makes
    /// the pipeline terminal, the lock-table entry is released on the spot —
    /// the guaranteed release on every exit path — and the task reports
    /// `Terminated` so the driver discards it.
    pub fn step(&mut self, table: &mut GroupLockTable, ok: bool) -> (r: TaskState)
        requires
            !old(self).spec_task().spec_terminal(),
            old(self).spec_lock_owner() matches Some(tid)
                && old(table).spec_owner() == Some(tid),
        ensures
            final(self).spec_task() == old(self).spec_task().spec_advance(ok),
            (r == TaskState::Terminated) <==> final(self).spec_task().spec_terminal(),
            final(table).spec_epoch() == old(table).spec_epoch(),
            final(table).spec_group_id() == old(table).spec_group_id(),
            r == TaskState::Terminated ==> !final(table).spec_has_config_change()
                && final(self).spec_lock_owner() is None,
            r != TaskState::Terminated ==> r == TaskState::Pending(None)
                && *final(table) == *old(table)
                && final(self).spec_lock_owner() == old(self).spec_lock_owner(),
    {
        self.task.advance(ok);
        if self.task.is_terminal() {
            table.release(&self.locks);
            self.released = true;
            TaskState::Terminated
        } else {
            TaskState::Pending(None)
        }
    }
}

} // verus!
