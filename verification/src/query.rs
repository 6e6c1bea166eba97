//! The request and response types of contract state queries.

use vstd::prelude::*;
use sp_storage::StorageKey;

verus! {

#[verifier::external_type_specification]
#[verifier::external_body]
pub struct ExStorageKey(StorageKey);

/// A query into a contract's state tree: the keys of the steps from the
/// root down to the field asked for.
#[derive(Debug, Clone)]
pub struct RpcStateQuery {
    pub path: Vec<StorageKey>,
}

/// The answer to one query: the query itself, and either the value found
/// or the error met.
#[derive(Debug, Clone)]
pub struct RpcStateQueryResult {
    pub query: RpcStateQuery,
    pub value: Option<String>,
    pub error: Option<String>,
}

} // verus!
