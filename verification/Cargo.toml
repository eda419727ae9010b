[package]
name = "gas_escalator"
version = "0.1.0"
edition = "2021"
publish = false

[dependencies]
ethers-core = "2.0"
tracing = "0.1"
