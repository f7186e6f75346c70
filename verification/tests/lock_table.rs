use group_schedule::descriptor::{ReplicaDesc, ReplicaRole};
use group_schedule::lock_table::{Conflict, GroupLockTable};

fn voter(id: u64, node_id: u64) -> ReplicaDesc {
    ReplicaDesc { id, node_id, role: ReplicaRole::Voter }
}

#[test]
fn fresh_table_has_no_locks() {
    let table = GroupLockTable::new(1);
    assert!(!table.has_config_change());
    assert!(!table.is_replica_locked(1));
    assert!(!table.is_replica_locked(7));
}

#[test]
fn config_change_locks_the_named_replicas() {
    let mut table = GroupLockTable::new(1);
    let guard = table
        .config_change(10, 3, vec![7, 8, 9], vec![voter(8, 2), voter(9, 3)], vec![])
        .expect("fresh table admits the change");
    assert_eq!(guard.task_id(), 10);
    assert!(table.has_config_change());
    assert!(table.is_replica_locked(7));
    assert!(table.is_replica_locked(8));
    assert!(table.is_replica_locked(9));
    assert!(!table.is_replica_locked(10));
}

#[test]
fn second_config_change_fails_without_mutating() {
    let mut table = GroupLockTable::new(1);
    let _guard = table
        .config_change(10, 3, vec![7, 8], vec![voter(8, 2)], vec![])
        .expect("fresh table admits the change");
    // A second attempt naming an already-locked replica must fail ...
    let second = table.config_change(11, 3, vec![8, 9], vec![voter(9, 3)], vec![]);
    assert_eq!(second.err(), Some(Conflict::AlreadyLocked));
    // ... and even a disjoint one, while the first is active.
    let disjoint = table.config_change(12, 3, vec![20, 21], vec![], vec![]);
    assert_eq!(disjoint.err(), Some(Conflict::AlreadyLocked));
    // The table still reflects only the first entry.
    assert!(table.is_replica_locked(7));
    assert!(table.is_replica_locked(8));
    assert!(!table.is_replica_locked(9));
    assert!(!table.is_replica_locked(20));
}

#[test]
fn stale_epoch_is_rejected() {
    let mut table = GroupLockTable::new(1);
    let guard = table
        .config_change(10, 5, vec![7], vec![], vec![])
        .expect("fresh table admits the change");
    table.release(&guard);
    let stale = table.config_change(11, 4, vec![7], vec![], vec![]);
    assert_eq!(stale.err(), Some(Conflict::StaleEpoch));
    assert!(!table.has_config_change());
    let fresh = table.config_change(11, 5, vec![7], vec![], vec![]);
    assert!(fresh.is_ok());
}

#[test]
fn release_makes_replicas_lockable_again() {
    let mut table = GroupLockTable::new(1);
    let guard = table
        .config_change(10, 3, vec![7, 8], vec![voter(8, 2)], vec![])
        .expect("fresh table admits the change");
    table.release(&guard);
    assert!(!table.has_config_change());
    assert!(!table.is_replica_locked(7));
    assert!(!table.is_replica_locked(8));
    let again = table.config_change(11, 3, vec![7, 8], vec![voter(8, 2)], vec![]);
    assert!(again.is_ok());
}

#[test]
fn release_is_idempotent() {
    let mut table = GroupLockTable::new(1);
    let guard = table
        .config_change(10, 3, vec![7], vec![], vec![])
        .expect("fresh table admits the change");
    table.release(&guard);
    table.release(&guard);
    assert!(!table.has_config_change());
    // A stale guard does not release somebody else's entry.
    let second = table
        .config_change(11, 3, vec![7], vec![], vec![])
        .expect("released table admits the change");
    table.release(&guard);
    assert!(table.has_config_change());
    table.release(&second);
    assert!(!table.has_config_change());
}
