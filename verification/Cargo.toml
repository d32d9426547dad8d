[package]
name = "triad_ledger"
version = "0.1.0"
edition = "2021"
publish = false

[dependencies]
sha2 = "0.10"
ed25519-dalek = "=1.0.1"
rand = "=0.7.3"
chrono = "0.4"
rayon = "1"
serde = { version = "1", features = ["derive"] }
serde_json = "1"
