[package]
name = "ring_voting"
version = "0.1.0"
edition = "2021"
publish = false

[dependencies]
nazgul = "=2.1.0"
curve25519-dalek = { version = "=4.1.3", features = ["rand_core", "digest"] }
sha2 = "=0.10.9"

[dev-dependencies]
rand_core = "=0.6.4"
