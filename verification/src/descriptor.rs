//! Descriptors for the replicas of a consensus group.

use vstd::prelude::*;

verus! {

/// Role of a replica inside its group's consensus configuration.  A voter
/// takes part in quorum and leader election; a learner receives log entries
/// but does not vote, and serves as the safe staging role before promotion.
#[derive(Clone, Copy, Debug, PartialEq, Eq, Structural)]
pub enum ReplicaRole {
    Voter,
    Learner,
}

/// One replica of a group: its id, the node hosting it, and its role.
#[derive(Clone, Copy, Debug, PartialEq, Eq, Structural)]
pub struct ReplicaDesc {
    pub id: u64,
    pub node_id: u64,
    pub role: ReplicaRole,
}

/// The ids of the replicas of `s`, in order.
pub open spec fn replica_ids(s: Seq<ReplicaDesc>) -> Seq<u64> {
    s.map_values(|r: ReplicaDesc| r.id)
}

/// Copies a replica list element for element.
pub fn clone_replicas(v: &Vec<ReplicaDesc>) -> (r: Vec<ReplicaDesc>)
    ensures
        r@ == v@,
{
    let mut out: Vec<ReplicaDesc> = Vec::new();
    let n = v.len();
    let mut i: usize = 0;
    while i < n
        invariant
            i <= n,
            n == v@.len(),
            out@ == v@.take(i as int),
        decreases n - i,
    {
        out.push(v[i]);
        proof {
            assert(out@ =~= v@.take(i as int + 1));
        }
        i = i + 1;
    }
    proof {
        assert(out@ =~= v@);
    }
    out
}

} // verus!
