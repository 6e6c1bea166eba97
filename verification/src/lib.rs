//! Types of the Midnight node's RPC interface: the error types with the
//! messages they carry to clients, and the request/response types of
//! contract state queries.

pub mod decimal;
pub mod errors;
pub mod laws;
pub mod query;
pub mod rpc_error;

pub use errors::{BlockRpcError, EventsError, StateRpcError};
pub use query::{RpcStateQuery, RpcStateQueryResult};
pub use rpc_error::RpcResult;

use vstd::prelude::*;

verus! {

/// The versions of the RPC interface that this node serves.
pub const API_VERSIONS: [u32; 1] = [2];

/// The largest number of queries that one state query request may hold.
pub const MAX_STATE_QUERIES: usize = 100;

/// The largest number of steps in the path of one state query.
pub const MAX_PATH_DEPTH: usize = 16;

} // verus!
