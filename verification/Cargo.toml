[package]
name = "cw_module_sim"
version = "0.1.0"
edition = "2021"
publish = false

[dependencies]
anyhow = "1"
cosmwasm-std = "=2.3.5"
coreum-wasm-sdk = "=1.2.1"
osmosis-std = "=0.26.0"
prost = "=0.12.6"
serde = "1"
cw-multi-test = { version = "=2.5.1", features = ["stargate", "cosmwasm_2_0"] }
