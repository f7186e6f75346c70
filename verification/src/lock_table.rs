//! Per-group lock table: the mutual-exclusion registry that keeps two
//! reconfiguration attempts from racing on the same replica set.

use vstd::prelude::*;

use crate::descriptor::ReplicaDesc;

verus! {

/// Why a `config_change` request was refused.  Conflicts are expected under
/// concurrent scheduling and are handled by backing off, never by panicking.
#[derive(Clone, Copy, Debug, PartialEq, Eq, Structural)]
pub enum Conflict {
    /// Another reconfiguration is already registered for this group.
    AlreadyLocked,
    /// The supplied epoch is older than one the table has already admitted.
    StaleEpoch,
}

/// The active registration of one reconfiguration attempt.
pub struct LockEntry {
    pub task_id: u64,
    pub epoch: u64,
    pub locked_replicas: Vec<u64>,
    pub incoming: Vec<ReplicaDesc>,
    pub outgoing: Vec<ReplicaDesc>,
}

/// Witness that a config change was admitted.  The owning task presents it
/// to `GroupLockTable::release` on its terminal outcome.
pub struct LockGuard {
    task_id: u64,
    locked_replicas: Vec<u64>,
}

impl LockGuard {
    pub closed spec fn spec_task_id(self) -> u64 {
        self.task_id
    }

    pub closed spec fn spec_locked_replicas(self) -> Seq<u64> {
        self.locked_replicas@
    }

    pub fn task_id(&self) -> (r: u64)
        ensures
            r == self.spec_task_id(),
    {
        self.task_id
    }
}

/// Registry of the reconfiguration attempt in flight for one group.  At most
/// one entry is active at a time; `config_change` atomically checks and
/// inserts, and a refused request leaves the table untouched.
pub struct GroupLockTable {
    group_id: u64,
    epoch: u64,
    entry: Option<LockEntry>,
}

impl GroupLockTable {
    pub closed spec fn spec_group_id(self) -> u64 {
        self.group_id
    }

    /// Highest epoch the table has admitted so far; a request carrying an
    /// older epoch is stale.
    pub closed spec fn spec_epoch(self) -> u64 {
        self.epoch
    }

    pub closed spec fn spec_has_config_change(self) -> bool {
        self.entry is Some
    }

    /// Task id of the active entry, if one exists.
    pub closed spec fn spec_owner(self) -> Option<u64> {
        match self.entry {
            Some(e) => Some(e.task_id),
            None => None,
        }
    }

    /// Replica ids held by the active entry; empty when none is active.
    pub closed spec fn spec_locked_replicas(self) -> Seq<u64> {
        match self.entry {
            Some(e) => e.locked_replicas@,
            None => Seq::<u64>::empty(),
        }
    }

    pub open spec fn spec_is_replica_locked(self, replica_id: u64) -> bool {
        self.spec_locked_replicas().contains(replica_id)
    }

    /// A request at `epoch` is admitted exactly when no entry is active and
    /// the epoch is not stale.
    pub open spec fn spec_admits(self, epoch: u64) -> bool {
        &&& !self.spec_has_config_change()
        &&& epoch >= self.spec_epoch()
    }

    pub fn new(group_id: u64) -> (r: Self)
        ensures
            r.spec_group_id() == group_id,
            r.spec_epoch() == 0,
            !r.spec_has_config_change(),
            r.spec_owner() is None,
            forall|id: u64| !r.spec_is_replica_locked(id),
    {
        GroupLockTable { group_id, epoch: 0, entry: None }
    }

    /// Highest epoch the table has admitted so far.
    pub fn epoch(&self) -> (r: u64)
        ensures
            r == self.spec_epoch(),
    {
        self.epoch
    }

    /// True iff a reconfiguration is currently registered for this group.
    pub fn has_config_change(&self) -> (r: bool)
        ensures
            r == self.spec_has_config_change(),
    {
        self.entry.is_some()
    }

    /// True iff `replica_id` is held by the active entry.
    pub fn is_replica_locked(&self, replica_id: u64) -> (r: bool)
        ensures
            r == self.spec_is_replica_locked(replica_id),
    {
        match &self.entry {
            Some(e) => {
                let n = e.locked_replicas.len();
                let mut i: usize = 0;
                while i < n
                    invariant
                        i <= n,
                        n == e.locked_replicas@.len(),
                        self.spec_locked_replicas() == e.locked_replicas@,
                        forall|j: int| 0 <= j < i ==> e.locked_replicas@[j] != replica_id,
                    decreases n - i,
                {
                    if e.locked_replicas[i] == replica_id {
                        proof {
                            assert(e.locked_replicas@.contains(replica_id)) by {
                                assert(e.locked_replicas@[i as int] == replica_id);
                            }
                        }
                        return true;
                    }
                    i = i + 1;
                }
                false
            },
            None => false,
        }
    }

    /// Atomically checks that no reconfiguration is active and that `epoch`
    /// is fresh; on success registers the entry and returns its guard, on
    /// conflict reports why without mutating the table.
    pub fn config_change(
        &mut self,
        task_id: u64,
        epoch: u64,
        locked_replicas: Vec<u64>,
        incoming: Vec<ReplicaDesc>,
        outgoing: Vec<ReplicaDesc>,
    ) -> (r: Result<LockGuard, Conflict>)
        ensures
            r is Ok <==> old(self).spec_admits(epoch),
            r == Err::<LockGuard, Conflict>(Conflict::AlreadyLocked)
                <==> old(self).spec_has_config_change(),
            r == Err::<LockGuard, Conflict>(Conflict::StaleEpoch)
                <==> (!old(self).spec_has_config_change() && epoch < old(self).spec_epoch()),
            r is Err ==> *final(self) == *old(self),
            r matches Ok(g) ==> ({
                &&& g.spec_task_id() == task_id
                &&& g.spec_locked_replicas() == locked_replicas@
                &&& final(self).spec_has_config_change()
                &&& final(self).spec_owner() == Some(task_id)
                &&& final(self).spec_locked_replicas() == locked_replicas@
                &&& final(self).spec_epoch() == epoch
                &&& final(self).spec_group_id() == old(self).spec_group_id()
            }),
    {
        if self.entry.is_some() {
            return Err(Conflict::AlreadyLocked);
        }
        if epoch < self.epoch {
            return Err(Conflict::StaleEpoch);
        }
        let guard_replicas = clone_ids(&locked_replicas);
        self.entry = Some(LockEntry { task_id, epoch, locked_replicas, incoming, outgoing });
        self.epoch = epoch;
        Ok(LockGuard { task_id, locked_replicas: guard_replicas })
    }

    /// Removes the entry owned by `guard`; a guard whose entry is no longer
    /// active is ignored, so release is idempotent.
    pub fn release(&mut self, guard: &LockGuard)
        ensures
            final(self).spec_group_id() == old(self).spec_group_id(),
            final(self).spec_epoch() == old(self).spec_epoch(),
            old(self).spec_owner() == Some(guard.spec_task_id())
                ==> !final(self).spec_has_config_change(),
            old(self).spec_owner() != Some(guard.spec_task_id())
                ==> *final(self) == *old(self),
    {
        let owns = match &self.entry {
            Some(e) => e.task_id == guard.task_id,
            None => false,
        };
        if owns {
            self.entry = None;
        }
    }
}

/// Mutual exclusion: the table never names two distinct active owners.
pub proof fn lemma_at_most_one_active_owner(t: GroupLockTable, a: u64, b: u64)
    requires
        t.spec_owner() == Some(a),
        t.spec_owner() == Some(b),
    ensures
        a == b,
{
}

/// Mutual exclusion: while an entry is active, no further config change is
/// admitted, whatever epoch it carries.
pub proof fn lemma_mutual_exclusion(t: GroupLockTable, epoch: u64)
    requires
        t.spec_has_config_change(),
    ensures
        !t.spec_admits(epoch),
{
}

/// Release-on-exit: once no entry is active every replica id is unlocked
/// again, and any request with a fresh epoch is admitted.
pub proof fn lemma_released_replicas_lockable(t: GroupLockTable, replica_id: u64, epoch: u64)
    requires
        !t.spec_has_config_change(),
    ensures
        !t.spec_is_replica_locked(replica_id),
        epoch >= t.spec_epoch() ==> t.spec_admits(epoch),
{
    assert(t.spec_locked_replicas() =~= Seq::<u64>::empty());
}

/// Copies a list of replica ids element for element.
fn clone_ids(v: &Vec<u64>) -> (r: Vec<u64>)
    ensures
        r@ == v@,
{
    let mut out: Vec<u64> = Vec::new();
    let n = v.len();
    let mut i: usize = 0;
    while i < n
        invariant
            i <= n,
            n == v@.len(),
            out@ == v@.take(i as int),
        decreases n - i,
    {
        out.push(v[i]);
        proof {
            assert(out@ =~= v@.take(i as int + 1));
        }
        i = i + 1;
    }
    proof {
        assert(out@ =~= v@);
    }
    out
}

} // verus!
