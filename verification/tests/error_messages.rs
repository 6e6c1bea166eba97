use midnight_rpc_api::decimal::push_decimal;
use midnight_rpc_api::{BlockRpcError, EventsError, StateRpcError};
use midnight_rpc_api::{API_VERSIONS, MAX_PATH_DEPTH, MAX_STATE_QUERIES};

#[test]
fn constants_have_their_values() {
    assert_eq!(API_VERSIONS, [2]);
    assert_eq!(MAX_STATE_QUERIES, 100);
    assert_eq!(MAX_PATH_DEPTH, 16);
}

#[test]
fn state_error_messages() {
    assert_eq!(
        StateRpcError::BadContractAddress("0xzz".to_string()).to_string(),
        "Unable to decode contract address: 0xzz"
    );
    assert_eq!(
        StateRpcError::BadAccountAddress("mn_addr1".to_string()).to_string(),
        "Unable to decode account address: mn_addr1"
    );
    assert_eq!(
        StateRpcError::UnableToGetContractState.to_string(),
        "Unable to get requested contract state"
    );
    assert_eq!(
        StateRpcError::UnableToGetZSwapChainState.to_string(),
        "Unable to get requested zswap chain state"
    );
    assert_eq!(
        StateRpcError::UnableToGetZSwapStateRoot.to_string(),
        "Unable to get requested zswap state root"
    );
    assert_eq!(
        StateRpcError::UnableToGetLedgerStateRoot.to_string(),
        "Unable to get requested ledger state root"
    );
}

#[test]
fn too_many_queries_message_names_both_counts() {
    assert_eq!(
        StateRpcError::TooManyQueries { max: 100, got: 150 }.to_string(),
        "Too many queries: got 150, maximum is 100"
    );
    assert_eq!(
        StateRpcError::TooManyQueries { max: 0, got: 1 }.to_string(),
        "Too many queries: got 1, maximum is 0"
    );
}

#[test]
fn path_too_deep_message_names_the_limit() {
    assert_eq!(
        StateRpcError::PathTooDeep(17).to_string(),
        "Path too deep: 17 steps exceeds the maximum of 16"
    );
    assert_eq!(
        StateRpcError::PathTooDeep(usize::MAX).to_string(),
        format!("Path too deep: {} steps exceeds the maximum of 16", usize::MAX)
    );
}

#[test]
fn block_error_messages() {
    assert_eq!(
        BlockRpcError::UnableToGetBlock("timeout".to_string()).to_string(),
        "Error while getting block: timeout"
    );
    assert_eq!(BlockRpcError::BlockNotFound.to_string(), "Unable to get block by hash");
    assert_eq!(BlockRpcError::UnableToGetLedgerState.to_string(), "Unable to get ledger state");
    assert_eq!(
        BlockRpcError::UnableToDecodeTransactions("bad tx".to_string()).to_string(),
        "Unable to decode transactions for block: bad tx"
    );
    assert_eq!(
        BlockRpcError::UnableToSerializeBlock("eof".to_string()).to_string(),
        "Unable to serialize block to JSON: eof"
    );
    assert_eq!(BlockRpcError::UnableToGetChainVersion.to_string(), "Unable to read chain name");
}

#[test]
fn events_error_messages() {
    assert_eq!(
        EventsError::HexDecode { event: "0x12".to_string(), error: "odd length".to_string() }
            .to_string(),
        "Unable to hex decode event: 0x12, because of odd length"
    );
    assert_eq!(
        EventsError::Decode { event: "ev".to_string(), error: "eof".to_string() }.to_string(),
        "Unable to decode event: ev, because of eof"
    );
    assert_eq!(
        EventsError::UnableToSerializeEvent { event: "ev".to_string(), error: "x".to_string() }
            .to_string(),
        "Unable to serialize event to json: ev, because of x"
    );
}

#[test]
fn messages_keep_empty_and_non_ascii_parts() {
    assert_eq!(
        StateRpcError::BadContractAddress(String::new()).to_string(),
        "Unable to decode contract address: "
    );
    assert_eq!(
        EventsError::Decode { event: "évènement".to_string(), error: String::new() }.to_string(),
        "Unable to decode event: évènement, because of "
    );
}

#[test]
fn decimal_rendering_matches_display() {
    for n in [0usize, 1, 9, 10, 11, 99, 100, 101, 1_000_000, 1_234_567_890, usize::MAX] {
        let mut s = String::from("n=");
        push_decimal(&mut s, n);
        assert_eq!(s, format!("n={}", n));
    }
}
