[package]
name = "schnorr_keys"
version = "0.1.0"
edition = "2021"
publish = false

[dependencies]
curve25519-dalek = { version = "4", features = ["rand_core"] }
rand = "0.8"
blake2 = "0.10"
serde = { version = "1", features = ["derive"] }
serde_json = "1"
