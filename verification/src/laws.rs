//! What the error texts say, stated by what a client can read back from
//! them.

use vstd::prelude::*;
use crate::decimal::{decimal, is_decimal_of, lemma_decimal_is_canonical};
use crate::errors::{BlockRpcError, EventsError, StateRpcError};
use crate::rpc_error::{invalid_params_code_value, owned_error_object};
use jsonrpsee::types::error::ErrorObjectOwned;

verus! {

/// `m` is `prefix` followed by all of `rest`, unchanged: `rest` is what
/// remains of `m` once `prefix` is stripped.
pub open spec fn reads_back(m: Seq<char>, prefix: Seq<char>, rest: Seq<char>) -> bool {
    &&& m.len() == prefix.len() + rest.len()
    &&& m.subrange(0, prefix.len() as int) == prefix
    &&& m.subrange(prefix.len() as int, m.len() as int) == rest
}

/// `m` is `head`, then all of `event`, then `sep`, then all of `error`.
pub open spec fn reads_back_pair(
    m: Seq<char>,
    head: Seq<char>,
    event: Seq<char>,
    sep: Seq<char>,
    error: Seq<char>,
) -> bool {
    let a = head.len() as int;
    let b = a + event.len();
    let c = b + sep.len();
    &&& m.len() == c + error.len()
    &&& m.subrange(0, a) == head
    &&& m.subrange(a, b) == event
    &&& m.subrange(b, c) == sep
    &&& m.subrange(c, m.len() as int) == error
}

proof fn lemma_reads_back(prefix: Seq<char>, rest: Seq<char>)
    ensures
        reads_back(prefix + rest, prefix, rest),
{
    let m = prefix + rest;
    assert(m.subrange(0, prefix.len() as int) =~= prefix);
    assert(m.subrange(prefix.len() as int, m.len() as int) =~= rest);
}

proof fn lemma_reads_back_pair(head: Seq<char>, event: Seq<char>, sep: Seq<char>, error: Seq<char>)
    ensures
        reads_back_pair(head + event + sep + error, head, event, sep, error),
{
    let m = head + event + sep + error;
    let a = head.len() as int;
    let b = a + event.len();
    let c = b + sep.len();
    assert(m.subrange(0, a) =~= head);
    assert(m.subrange(a, b) =~= event);
    assert(m.subrange(b, c) =~= sep);
    assert(m.subrange(c, m.len() as int) =~= error);
}

/// The text of `TooManyQueries { max, got }` names the count sent first and
/// the limit second: it is "Too many queries: got ", the decimal digits of
/// `got`, ", maximum is ", and the decimal digits of `max`.
pub proof fn law_too_many_queries_text(max: usize, got: usize)
    ensures
        exists|a: Seq<char>, b: Seq<char>|
            #![trigger is_decimal_of(a, got as nat), is_decimal_of(b, max as nat)]
            {
                &&& StateRpcError::TooManyQueries { max, got }.message() == "Too many queries: got "@ + a
                    + ", maximum is "@ + b
                &&& is_decimal_of(a, got as nat)
                &&& is_decimal_of(b, max as nat)
            },
{
    lemma_decimal_is_canonical(got as nat);
    lemma_decimal_is_canonical(max as nat);
    assert(is_decimal_of(decimal(got as nat), got as nat));
    assert(is_decimal_of(decimal(max as nat), max as nat));
}

/// The text of `PathTooDeep(got)` names the depth asked for and the limit
/// 16, whatever `got` is: it is "Path too deep: ", the decimal digits of
/// `got`, " steps exceeds the maximum of ", and the digits of 16.
pub proof fn law_path_too_deep_text(got: usize)
    ensures
        exists|a: Seq<char>, b: Seq<char>|
            #![trigger is_decimal_of(a, got as nat), is_decimal_of(b, 16)]
            {
                &&& StateRpcError::PathTooDeep(got).message() == "Path too deep: "@ + a
                    + " steps exceeds the maximum of "@ + b
                &&& is_decimal_of(a, got as nat)
                &&& is_decimal_of(b, 16)
            },
{
    lemma_decimal_is_canonical(got as nat);
    lemma_decimal_is_canonical(16);
    assert(is_decimal_of(decimal(got as nat), got as nat));
    assert(is_decimal_of(decimal(16), 16));
}

/// The texts of errors about an address carry the whole address,
/// unchanged, after their fixed lead.
pub proof fn law_address_texts(addr: String)
    ensures
        reads_back(
            StateRpcError::BadContractAddress(addr).message(),
            "Unable to decode contract address: "@,
            addr@,
        ),
        reads_back(
            StateRpcError::BadAccountAddress(addr).message(),
            "Unable to decode account address: "@,
            addr@,
        ),
{
    lemma_reads_back("Unable to decode contract address: "@, addr@);
    lemma_reads_back("Unable to decode account address: "@, addr@);
}

/// The texts of block errors that have a reason carry the whole reason,
/// unchanged, after their fixed lead.
pub proof fn law_block_reason_texts(reason: String)
    ensures
        reads_back(
            BlockRpcError::UnableToGetBlock(reason).message(),
            "Error while getting block: "@,
            reason@,
        ),
        reads_back(
            BlockRpcError::UnableToDecodeTransactions(reason).message(),
            "Unable to decode transactions for block: "@,
            reason@,
        ),
        reads_back(
            BlockRpcError::UnableToSerializeBlock(reason).message(),
            "Unable to serialize block to JSON: "@,
            reason@,
        ),
{
    lemma_reads_back("Error while getting block: "@, reason@);
    lemma_reads_back("Unable to decode transactions for block: "@, reason@);
    lemma_reads_back("Unable to serialize block to JSON: "@, reason@);
}

/// The text of every event error carries the whole event and then the whole
/// cause, whatever their lengths, joined by ", because of ".
pub proof fn law_event_texts(event: String, error: String)
    ensures
        reads_back_pair(
            EventsError::HexDecode { event, error }.message(),
            "Unable to hex decode event: "@,
            event@,
            ", because of "@,
            error@,
        ),
        reads_back_pair(
            EventsError::Decode { event, error }.message(),
            "Unable to decode event: "@,
            event@,
            ", because of "@,
            error@,
        ),
        reads_back_pair(
            EventsError::UnableToSerializeEvent { event, error }.message(),
            "Unable to serialize event to json: "@,
            event@,
            ", because of "@,
            error@,
        ),
{
    lemma_reads_back_pair("Unable to hex decode event: "@, event@, ", because of "@, error@);
    lemma_reads_back_pair("Unable to decode event: "@, event@, ", because of "@, error@);
    lemma_reads_back_pair("Unable to serialize event to json: "@, event@, ", because of "@, error@);
}

/// Every error becomes the error object that jsonrpsee builds from the code
/// -32602 (invalid params) and the whole text of the error.
pub proof fn law_error_objects(s: StateRpcError, b: BlockRpcError, e: EventsError)
    ensures
        invalid_params_code_value() == -32602i32,
        <ErrorObjectOwned as vstd::std_specs::convert::FromSpec<StateRpcError>>::from_spec(s)
            == owned_error_object(-32602i32, s.message()),
        <ErrorObjectOwned as vstd::std_specs::convert::FromSpec<BlockRpcError>>::from_spec(b)
            == owned_error_object(-32602i32, b.message()),
        <ErrorObjectOwned as vstd::std_specs::convert::FromSpec<EventsError>>::from_spec(e)
            == owned_error_object(-32602i32, e.message()),
{
}

} // verus!
