[package]
name = "pure_decimal"
version = "0.1.0"
edition = "2021"
publish = false

[dependencies]
decimal = { version = "2", default-features = false }
serde = "1"

[dev-dependencies]
serde_json = "1"
