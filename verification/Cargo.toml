[package]
name = "tx_builders"
version = "0.1.0"
edition = "2021"
publish = false

[dependencies]
fuel-asm = "=0.66.4"
fuel-crypto = "=0.66.4"
fuel-tx = { version = "=0.66.4", features = ["test-helpers", "random"] }
fuel-types = "=0.66.4"
zeroize = "=1.9.1"
async-trait = "=0.1.92"
