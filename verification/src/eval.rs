//! Apply-path evaluator values: the deterministic effect descriptions that
//! client requests are turned into before being committed through the same
//! consensus channel as the scheduler's membership changes.

use vstd::prelude::*;

verus! {

/// Descriptor of a data shard inside its collection.
#[derive(Clone, Copy, Debug, PartialEq, Eq, Structural)]
pub struct ShardDesc {
    pub id: u64,
    pub collection_id: u64,
}

/// Synchronous operation that installs a shard on the group.
#[derive(Clone, Copy, Debug, PartialEq, Eq, Structural)]
pub struct AddShard {
    pub shard: Option<ShardDesc>,
}

/// A state-machine side effect to apply alongside the write batch.
#[derive(Clone, Copy, Debug, PartialEq, Eq, Structural)]
pub struct SyncOp {
    pub add_shard: Option<AddShard>,
}

/// The committed effect a request evaluates to.
#[derive(Clone, Copy, Debug, PartialEq, Eq, Structural)]
pub struct EvalResult {
    pub op: Option<SyncOp>,
}

impl Default for SyncOp {
    /// A synchronous operation that does nothing.
    fn default() -> (r: Self)
        ensures
            r.add_shard is None,
    {
        SyncOp { add_shard: None }
    }
}

impl Default for EvalResult {
    /// An effect that changes nothing.
    fn default() -> (r: Self)
        ensures
            r.op is None,
    {
        EvalResult { op: None }
    }
}

/// Evaluates an add-shard request to its effect: a sync op installing
/// exactly `shard`, and nothing else.
pub fn add_shard(shard: ShardDesc) -> (r: EvalResult)
    ensures
        r == (EvalResult { op: Some(SyncOp { add_shard: Some(AddShard { shard: Some(shard) }) }) }),
{
    EvalResult { op: Some(SyncOp { add_shard: Some(AddShard { shard: Some(shard) }) }) }
}

} // verus!
