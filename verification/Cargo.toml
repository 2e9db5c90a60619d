[package]
name = "ethereum_consensus"
version = "0.1.0"
edition = "2021"
publish = false

[dependencies]
integer-sqrt = "0.1"
ssz_rs = "*"
sha2 = "0.10"
blst = "0.3"
c-kzg = "*"
alloy-primitives = { version = "*", default-features = false }
serde = { version = "1", features = ["derive"] }
