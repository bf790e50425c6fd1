[package]
name = "launchpad"
version = "0.1.0"
edition = "2021"
publish = false

[dependencies]
multiversx-sc = { version = "=0.66.2", features = ["std"] }
multiversx-sc-modules = "=0.66.2"
elrond-wasm = "=0.38.0"
elrond-wasm-modules = "=0.38.0"
elrond-wasm-node = "=0.38.0"
