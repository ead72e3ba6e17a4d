[package]
name = "anvil_executor"
version = "0.1.0"
edition = "2021"
publish = false

[dependencies]
alloy-primitives = "*"
alloy-eips = "*"
alloy-consensus = "*"
alloy-rpc-types = "*"
alloy-serde = "*"
alloy-evm = { version = "*", default-features = false, features = ["std"] }
revm = { version = "*", default-features = false, features = ["std"] }
