[package]
name = "wallet_crypto"
version = "0.1.0"
edition = "2021"
publish = false

[dependencies]
hmac = "0.12"
sha2 = "0.10"
ed25519-dalek = "2"
zeroize = "1"
thiserror = "1"

[dev-dependencies]
hex = "0.4"
