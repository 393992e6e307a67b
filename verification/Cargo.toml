[package]
name = "epaint"
version = "0.1.0"
edition = "2021"
publish = false

[dependencies]
gcd = "2"
serde = { version = "1", features = ["derive"] }
serde_json = "1"
crypto-hash = "0.3"
