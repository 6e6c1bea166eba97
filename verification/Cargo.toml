[package]
name = "midnight_rpc_api"
version = "0.1.0"
edition = "2021"
publish = false

[dependencies]
jsonrpsee = { version = "0.24", features = ["server-core", "client-core", "macros"] }
serde = { version = "1", features = ["derive"] }
sp-storage = { version = "22", features = ["serde"] }
