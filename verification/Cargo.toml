[package]
name = "muffin"
version = "0.1.0"
edition = "2021"
publish = false

[dependencies]
cosmwasm-std = { version = "=2.0.9", features = ["staking", "stargate", "cosmwasm_1_3"] }
cosmwasm-schema = "=2.0.8"
cw2 = "=2.0.0"
cw-storage-plus = "=2.0.0"
schemars = "=0.8.22"
serde = { version = "=1.0.229", features = ["derive"] }
thiserror = "=1.0.69"
prost = "=0.13.5"
cosmos-sdk-proto = { version = "=0.26.1", default-features = false }
