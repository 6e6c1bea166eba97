//! Turning the library's errors into JSON-RPC error objects.

use vstd::prelude::*;
use jsonrpsee::types::error::{ErrorObject, ErrorObjectOwned, INVALID_PARAMS_CODE};
use crate::errors::{BlockRpcError, EventsError, StateRpcError};

verus! {

#[verifier::external_type_specification]
#[verifier::external_body]
pub struct ExErrorObject<'a>(ErrorObject<'a>);

/// The result of an RPC method: the value, or the JSON-RPC error object
/// sent back in its place (jsonrpsee's `core::RpcResult`).
pub type RpcResult<T> = Result<T, ErrorObjectOwned>;

/// The JSON-RPC code of a call with invalid parameters.
pub open spec fn invalid_params_code_value() -> i32 {
    -32602i32
}

/// The error object that `ErrorObject::owned` builds from a code and a
/// message, with no data attached.
pub uninterp spec fn owned_error_object(code: i32, message: Seq<char>) -> ErrorObjectOwned;

/// `jsonrpsee::types::error::INVALID_PARAMS_CODE`, which jsonrpsee defines
/// as `-32602`.
#[verifier::external_body]
fn invalid_params_code() -> (c: i32)
    ensures
        c == invalid_params_code_value(),
{
    INVALID_PARAMS_CODE
}

/// Calls `jsonrpsee::types::error::ErrorObject::owned(code, message, None)`,
/// which builds an error object that carries `code` and `message` and no
/// data. The contract only names the result: equal codes and messages give
/// equal objects. What the object's `code()`, `message()` and `data()` then
/// return is not stated here (the type is opaque to the verifier); the tests
/// check it.
#[verifier::external_body]
fn error_object(code: i32, message: String) -> (r: ErrorObjectOwned)
    ensures
        r == owned_error_object(code, message@),
{
    ErrorObject::owned(code, message, None::<()>)
}

impl From<StateRpcError> for ErrorObjectOwned {
    fn from(value: StateRpcError) -> (r: Self)
        ensures
            r == owned_error_object(invalid_params_code_value(), value.message()),
    {
        error_object(invalid_params_code(), value.to_string())
    }
}

impl vstd::std_specs::convert::FromSpecImpl<StateRpcError> for ErrorObjectOwned {
    open spec fn obeys_from_spec() -> bool {
        true
    }

    open spec fn from_spec(v: StateRpcError) -> Self {
        owned_error_object(invalid_params_code_value(), v.message())
    }
}

impl From<BlockRpcError> for ErrorObjectOwned {
    fn from(value: BlockRpcError) -> (r: Self)
        ensures
            r == owned_error_object(invalid_params_code_value(), value.message()),
    {
        error_object(invalid_params_code(), value.to_string())
    }
}

impl vstd::std_specs::convert::FromSpecImpl<BlockRpcError> for ErrorObjectOwned {
    open spec fn obeys_from_spec() -> bool {
        true
    }

    open spec fn from_spec(v: BlockRpcError) -> Self {
        owned_error_object(invalid_params_code_value(), v.message())
    }
}

impl From<EventsError> for ErrorObjectOwned {
    fn from(value: EventsError) -> (r: Self)
        ensures
            r == owned_error_object(invalid_params_code_value(), value.message()),
    {
        error_object(invalid_params_code(), value.to_string())
    }
}

impl vstd::std_specs::convert::FromSpecImpl<EventsError> for ErrorObjectOwned {
    open spec fn obeys_from_spec() -> bool {
        true
    }

    open spec fn from_spec(v: EventsError) -> Self {
        owned_error_object(invalid_params_code_value(), v.message())
    }
}

} // verus!
