[package]
name = "authcore"
version = "0.1.0"
edition = "2021"
publish = false

[dependencies]
jsonwebtoken = { version = "=11.1.0", features = ["rust_crypto"] }
serde_json = "=1.0.151"
rust-crypto = "=0.2.36"
sha3 = "=0.12.0"
hex = "=0.4.3"
