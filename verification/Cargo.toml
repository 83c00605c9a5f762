[package]
name = "ledger_core"
version = "0.1.0"
edition = "2021"

[dependencies]
ed25519-dalek = { version = "2", features = ["rand_core", "serde"] }
hex = "0.4"
rand = "0.8"
sha2 = "0.10"

[dev-dependencies]
bcs = "0.1"
serde_bytes = "0.11"
