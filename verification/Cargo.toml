[package]
name = "chess_sessions"
version = "0.1.0"
edition = "2021"
publish = false

[dependencies]
chess = "=3.2.0"
near-sdk = { version = "=5.29.1", features = ["unit-testing"] }
serde = { version = "=1.0.229", features = ["derive"] }
