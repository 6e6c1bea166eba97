//! The errors that the RPC methods report, and the text that each one
//! shows to a client.

use vstd::prelude::*;
use crate::decimal::{decimal, push_decimal};
use crate::MAX_PATH_DEPTH;

verus! {

/// Errors of the methods that read contract and ledger state.
#[derive(Debug)]
pub enum StateRpcError {
    BadContractAddress(String),
    BadAccountAddress(String),
    UnableToGetContractState,
    UnableToGetZSwapChainState,
    UnableToGetZSwapStateRoot,
    UnableToGetLedgerStateRoot,
    TooManyQueries { max: usize, got: usize },
    PathTooDeep(usize),
}

/// Errors of the methods that read blocks.
#[derive(Debug)]
pub enum BlockRpcError {
    UnableToGetBlock(String),
    BlockNotFound,
    UnableToGetLedgerState,
    UnableToDecodeTransactions(String),
    UnableToSerializeBlock(String),
    UnableToGetChainVersion,
}

/// Errors met while decoding or serialising runtime events.
#[derive(Debug)]
pub enum EventsError {
    HexDecode { event: String, error: String },
    Decode { event: String, error: String },
    UnableToSerializeEvent { event: String, error: String },
}

/// A new string holding `s`.
fn text(s: &str) -> (r: String)
    ensures
        r@ == s@,
{
    String::from_str(s)
}

impl StateRpcError {
    /// The text of the error, as a client reads it.
    pub open spec fn message(&self) -> Seq<char> {
        match self {
            StateRpcError::BadContractAddress(addr) => "Unable to decode contract address: "@ + addr@,
            StateRpcError::BadAccountAddress(addr) => "Unable to decode account address: "@ + addr@,
            StateRpcError::UnableToGetContractState => "Unable to get requested contract state"@,
            StateRpcError::UnableToGetZSwapChainState => "Unable to get requested zswap chain state"@,
            StateRpcError::UnableToGetZSwapStateRoot => "Unable to get requested zswap state root"@,
            StateRpcError::UnableToGetLedgerStateRoot => "Unable to get requested ledger state root"@,
            StateRpcError::TooManyQueries { max, got } =>
                "Too many queries: got "@ + decimal(*got as nat) + ", maximum is "@ + decimal(*max as nat),
            StateRpcError::PathTooDeep(got) =>
                "Path too deep: "@ + decimal(*got as nat) + " steps exceeds the maximum of "@
                    + decimal(MAX_PATH_DEPTH as nat),
        }
    }

    /// Renders the error as text.
    pub fn to_string(&self) -> (r: String)
        ensures
            r@ == self.message(),
    {
        match self {
            StateRpcError::BadContractAddress(addr) => {
                let mut s = text("Unable to decode contract address: ");
                s.append(addr.as_str());
                s
            },
            StateRpcError::BadAccountAddress(addr) => {
                let mut s = text("Unable to decode account address: ");
                s.append(addr.as_str());
                s
            },
            StateRpcError::UnableToGetContractState => text("Unable to get requested contract state"),
            StateRpcError::UnableToGetZSwapChainState => text("Unable to get requested zswap chain state"),
            StateRpcError::UnableToGetZSwapStateRoot => text("Unable to get requested zswap state root"),
            StateRpcError::UnableToGetLedgerStateRoot => text("Unable to get requested ledger state root"),
            StateRpcError::TooManyQueries { max, got } => {
                let mut s = text("Too many queries: got ");
                push_decimal(&mut s, *got);
                s.append(", maximum is ");
                push_decimal(&mut s, *max);
                s
            },
            StateRpcError::PathTooDeep(got) => {
                let mut s = text("Path too deep: ");
                push_decimal(&mut s, *got);
                s.append(" steps exceeds the maximum of ");
                push_decimal(&mut s, MAX_PATH_DEPTH);
                s
            },
        }
    }
}

impl BlockRpcError {
    /// The text of the error, as a client reads it.
    pub open spec fn message(&self) -> Seq<char> {
        match self {
            BlockRpcError::UnableToGetBlock(reason) => "Error while getting block: "@ + reason@,
            BlockRpcError::BlockNotFound => "Unable to get block by hash"@,
            BlockRpcError::UnableToGetLedgerState => "Unable to get ledger state"@,
            BlockRpcError::UnableToDecodeTransactions(reason) =>
                "Unable to decode transactions for block: "@ + reason@,
            BlockRpcError::UnableToSerializeBlock(reason) => "Unable to serialize block to JSON: "@ + reason@,
            BlockRpcError::UnableToGetChainVersion => "Unable to read chain name"@,
        }
    }

    /// Renders the error as text.
    pub fn to_string(&self) -> (r: String)
        ensures
            r@ == self.message(),
    {
        match self {
            BlockRpcError::UnableToGetBlock(reason) => {
                let mut s = text("Error while getting block: ");
                s.append(reason.as_str());
                s
            },
            BlockRpcError::BlockNotFound => text("Unable to get block by hash"),
            BlockRpcError::UnableToGetLedgerState => text("Unable to get ledger state"),
            BlockRpcError::UnableToDecodeTransactions(reason) => {
                let mut s = text("Unable to decode transactions for block: ");
                s.append(reason.as_str());
                s
            },
            BlockRpcError::UnableToSerializeBlock(reason) => {
                let mut s = text("Unable to serialize block to JSON: ");
                s.append(reason.as_str());
                s
            },
            BlockRpcError::UnableToGetChainVersion => text("Unable to read chain name"),
        }
    }
}

impl EventsError {
    /// The text of the error, as a client reads it.
    pub open spec fn message(&self) -> Seq<char> {
        match self {
            EventsError::HexDecode { event, error } =>
                "Unable to hex decode event: "@ + event@ + ", because of "@ + error@,
            EventsError::Decode { event, error } =>
                "Unable to decode event: "@ + event@ + ", because of "@ + error@,
            EventsError::UnableToSerializeEvent { event, error } =>
                "Unable to serialize event to json: "@ + event@ + ", because of "@ + error@,
        }
    }

    /// Renders the error as text.
    pub fn to_string(&self) -> (r: String)
        ensures
            r@ == self.message(),
    {
        let (head, event, error) = match self {
            EventsError::HexDecode { event, error } => ("Unable to hex decode event: ", event, error),
            EventsError::Decode { event, error } => ("Unable to decode event: ", event, error),
            EventsError::UnableToSerializeEvent { event, error } =>
                ("Unable to serialize event to json: ", event, error),
        };
        let mut s = text(head);
        s.append(event.as_str());
        s.append(", because of ");
        s.append(error.as_str());
        s
    }
}

} // verus!
