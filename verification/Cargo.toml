[package]
name = "chain_net"
version = "0.1.0"
edition = "2021"
publish = false

[dependencies]
rand = "0.8"
async-channel = "2"
async-trait = "0.1"
tokio = { version = "1", features = ["rt", "time", "macros"] }
