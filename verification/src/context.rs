//! Per-poll-cycle handle of a group's scheduler: identity, current view,
//! the lock table, task-id minting, and the channel by which a task hands
//! newly built pipelines back to the driver.

use vstd::prelude::*;

use crate::lock_table::GroupLockTable;
use crate::task::ActionTaskWithLocks;

verus! {

/// Scheduling context of one group.  The lock table is the single shared
/// mutable structure touched by the tasks polled within it; delegated tasks
/// are collected here and drained by the driver after each poll, so the
/// driver keeps sole ownership of its task set.  Tasks mutate the context
/// only through `next_task_id`, `delegate` and the lock-table operations.
pub struct ScheduleContext {
    pub group_id: u64,
    /// Id of the replica this scheduler runs on (the group's leader).
    pub replica_id: u64,
    /// Leadership term under which the scheduler acts.
    pub current_term: u64,
    /// The group's epoch as currently observed.
    pub epoch: u64,
    /// The next task id `next_task_id` will mint.
    pub next_task_id: u64,
    pub group_lock_table: GroupLockTable,
    /// Tasks delegated since the driver last drained them.
    pub delegated: Vec<ActionTaskWithLocks>,
}

/// The identity fields of two contexts agree.
pub open spec fn spec_same_identity(a: ScheduleContext, b: ScheduleContext) -> bool {
    &&& a.group_id == b.group_id
    &&& a.replica_id == b.replica_id
    &&& a.current_term == b.current_term
    &&& a.epoch == b.epoch
}

impl ScheduleContext {
    pub fn new(group_id: u64, replica_id: u64, current_term: u64, epoch: u64) -> (r: Self)
        ensures
            r.group_id == group_id,
            r.replica_id == replica_id,
            r.current_term == current_term,
            r.epoch == epoch,
            r.next_task_id == 1,
            r.delegated@ == Seq::<ActionTaskWithLocks>::empty(),
            r.group_lock_table.spec_group_id() == group_id,
            r.group_lock_table.spec_epoch() == 0,
            !r.group_lock_table.spec_has_config_change(),
            forall|id: u64| !r.group_lock_table.spec_is_replica_locked(id),
    {
        ScheduleContext {
            group_id,
            replica_id,
            current_term,
            epoch,
            next_task_id: 1,
            group_lock_table: GroupLockTable::new(group_id),
            delegated: Vec::new(),
        }
    }

    /// Mints a task id no earlier mint of this context returned.
    pub fn next_task_id(&mut self) -> (r: u64)
        requires
            old(self).next_task_id < u64::MAX,
        ensures
            r == old(self).next_task_id,
            final(self).next_task_id == old(self).next_task_id + 1,
            spec_same_identity(*final(self), *old(self)),
            final(self).group_lock_table == old(self).group_lock_table,
            final(self).delegated == old(self).delegated,
    {
        let id = self.next_task_id;
        self.next_task_id = self.next_task_id + 1;
        id
    }

    /// Hands a newly built task back to the driver's task set.
    pub fn delegate(&mut self, task: ActionTaskWithLocks)
        ensures
            final(self).delegated@ == old(self).delegated@.push(task),
            spec_same_identity(*final(self), *old(self)),
            final(self).group_lock_table == old(self).group_lock_table,
            final(self).next_task_id == old(self).next_task_id,
    {
        self.delegated.push(task);
    }

    pub fn delegated_len(&self) -> (r: usize)
        ensures
            r == self.delegated@.len(),
    {
        self.delegated.len()
    }

    /// Removes and returns the most recently delegated task, if any.
    pub fn pop_delegated(&mut self) -> (r: Option<ActionTaskWithLocks>)
        ensures
            spec_same_identity(*final(self), *old(self)),
            final(self).group_lock_table == old(self).group_lock_table,
            final(self).next_task_id == old(self).next_task_id,
            old(self).delegated@.len() == 0 ==> r is None
                && final(self).delegated@ == old(self).delegated@,
            old(self).delegated@.len() > 0 ==> (r matches Some(t)
                && t == old(self).delegated@.last()
                && final(self).delegated@ == old(self).delegated@.drop_last()),
    {
        self.delegated.pop()
    }
}

} // verus!
