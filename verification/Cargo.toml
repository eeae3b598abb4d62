[package]
name = "homomorphic_commitments"
version = "0.1.0"
edition = "2021"
publish = false

[dependencies]
curve25519-dalek = { version = "=4.1.3", features = ["rand_core"] }
substrate-bn = "0.6"
rand = "0.8"
