[package]
name = "s9pk_reader"
version = "0.1.0"
edition = "2021"
publish = false

[dependencies]
sha2 = "*"
ed25519-dalek = { version = "*", features = ["digest"] }
serde_cbor = "*"
tokio = { version = "*", features = ["fs", "io-util", "rt"] }
