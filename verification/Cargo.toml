[package]
name = "ergo_address_core"
version = "0.1.0"
edition = "2021"
publish = false

[dependencies]
bs58 = "*"
blake2 = "*"
k256 = "*"
serde = { version = "*", features = ["derive"] }
