[package]
name = "rpc_middleware"
version = "0.1.0"
edition = "2021"
publish = false

[dependencies]
jsonrpc-core = "*"
prometheus = "*"
serde_json = "1"
log = "0.4"
futures = "0.3"
