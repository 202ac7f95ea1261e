[package]
name = "miden_notes"
version = "0.1.0"
edition = "2021"
publish = false

[dependencies]
miden-crypto = "0.9"
rand = "0.8"
serde = { version = "1", features = ["derive"] }
