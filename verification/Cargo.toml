[package]
name = "vesting_stream"
version = "0.1.0"
edition = "2021"
publish = false

[dependencies]
charms-sdk = "*"
hex = "*"
serde = { version = "*", features = ["derive"] }
