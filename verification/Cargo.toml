[package]
name = "relay_submit"
version = "0.1.0"
edition = "2021"
publish = false

[dependencies]
ahash = "0.8"
alloy-primitives = "0.8"
alloy-rpc-types-beacon = "0.3"
ethereum_ssz = "0.8"
ethereum_ssz_derive = "0.8"
futures = "0.3"
revm-primitives = { version = "10", default-features = false, features = ["std"] }
serde = { version = "1", features = ["derive"] }
time = "0.3"
tokio = { version = "1", features = ["full"] }
tokio-tungstenite = "0.23"
tokio-util = "0.7"
tracing = "0.1"
