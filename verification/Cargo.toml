[package]
name = "evm_bridge"
version = "0.1.0"
edition = "2021"
publish = false

[dependencies]
sha3 = "0.10"
hex = "0.4"
primitive-types = "0.12"
ethereum = "0.14"
sp-core = "21"
clap = { version = "4", features = ["derive"] }
