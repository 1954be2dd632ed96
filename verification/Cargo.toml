[package]
name = "channel_subscriber"
version = "0.1.0"
edition = "2021"
publish = false

[dependencies]
failure = "0.1"
serde = { version = "1.0", features = ["derive"] }
