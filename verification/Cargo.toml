[package]
name = "opaque_client"
version = "0.1.0"
edition = "2021"
publish = false

[dependencies]
base64 = "0.13"
curve25519-dalek = "3"
opaque-ke = { version = "0.5", features = ["slow-hash"] }
rand = "0.8"
scrypt = "0.5"
sha2 = "0.9"
