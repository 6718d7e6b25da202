[package]
name = "parity_trace"
version = "0.1.0"
edition = "2021"
publish = false

[dependencies]
alloy-chains = "=0.2.39"
alloy-consensus = { version = "=2.5.0", features = ["k256"] }
alloy-eips = "=2.5.0"
alloy-evm = "=0.39.0"
alloy-hardforks = "=0.4.11"
alloy-primitives = "=1.7.3"
alloy-rpc-types-engine = "=2.5.0"
alloy-rpc-types-eth = "=2.5.0"
alloy-rpc-types-trace = "=2.5.0"
async-trait = "=0.1.92"
futures = "=0.3.34"
jsonrpsee = { version = "=0.26.1", features = ["jsonrpsee-types"] }
revm = "=43.0.3"
revm-inspectors = "=0.44.3"
thiserror = "=2.0.21"
tokio = { version = "=1.54.1", features = ["sync"] }
