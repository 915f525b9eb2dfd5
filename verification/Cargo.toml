[package]
name = "sybil"
version = "0.1.0"
edition = "2021"
publish = false

[dependencies]
parity-scale-codec = "2"
primitive-types = { version = "0.10", features = ["codec"] }
sha3 = "0.9"
rand = "0.8"
