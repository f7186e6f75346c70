use group_schedule::eval::{add_shard, AddShard, EvalResult, ShardDesc, SyncOp};

#[test]
fn add_shard_wraps_exactly_the_shard() {
    let shard = ShardDesc { id: 4, collection_id: 2 };
    let result = add_shard(shard);
    assert_eq!(
        result,
        EvalResult { op: Some(SyncOp { add_shard: Some(AddShard { shard: Some(shard) }) }) }
    );
}

#[test]
fn default_effects_are_empty() {
    assert_eq!(SyncOp::default(), SyncOp { add_shard: None });
    assert_eq!(EvalResult::default(), EvalResult { op: None });
}
