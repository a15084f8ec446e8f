[package]
name = "guessing_game"
version = "0.1.0"
edition = "2021"
publish = false

[dependencies]
near-sdk = "=5.29.1"

[dev-dependencies]
near-sdk = { version = "=5.29.1", features = ["unit-testing"] }
