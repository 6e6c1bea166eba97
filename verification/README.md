# midnight_rpc_api

Types of the Midnight node's JSON-RPC interface, verified with Verus.

- `src/errors.rs`: the error enums (`StateRpcError`, `BlockRpcError`,
  `EventsError`); each has a spec function `message` giving the text a
  client reads, and `to_string`, proved to produce exactly that text.
- `src/decimal.rs`: decimal rendering of `usize` values used in those
  messages, with a proof that it is the canonical decimal representation.
- `src/rpc_error.rs`: conversion of each error into a jsonrpsee
  `ErrorObjectOwned` with the invalid-params code and the error's message.
- `src/query.rs`: the state query request and response types.
- `app/lib.rs`: the `#[rpc]` trait `MidnightApi` and the serde forms of the
  query and event error types.
