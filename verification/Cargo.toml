[package]
name = "dao-proposal-single-instant"
version = "0.1.0"
edition = "2021"
publish = false

[dependencies]
base64 = "0.21"
bech32 = "0.9"
cosmwasm-schema = "1.5"
cosmwasm-std = "1.5"
cw-hooks = "2"
cw-storage-plus = "1.2"
cw-utils = "1.0"
cw2 = "1.1"
cw4 = "1.1"
cw4-group = "1.1"
dao-hooks = "2"
dao-interface = "2"
dao-voting = "2"
dao-voting-cw4 = "2"
ripemd = "0.1"
serde = { version = "1", features = ["derive"] }
serde-json-wasm = "0.5"
sha2 = "0.10"
thiserror = "1"

[dev-dependencies]
k256 = "0.13"
