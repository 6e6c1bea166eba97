use midnight_rpc_api::{RpcStateQuery, RpcStateQueryResult};
use sp_storage::StorageKey;

#[test]
fn query_result_holds_its_query() {
    let query = RpcStateQuery { path: vec![StorageKey(vec![1, 2]), StorageKey(vec![3])] };
    let result = RpcStateQueryResult {
        query: query.clone(),
        value: Some("0x0a".to_string()),
        error: None,
    };
    let copy = result.clone();
    assert_eq!(copy.query.path.len(), 2);
    assert_eq!(copy.query.path[0].0, vec![1, 2]);
    assert_eq!(copy.query.path[1].0, vec![3]);
    assert_eq!(copy.value.as_deref(), Some("0x0a"));
    assert!(copy.error.is_none());
    assert_eq!(query.path.len(), 2);
}
