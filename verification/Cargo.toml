[package]
name = "cryptotrader"
version = "0.1.0"
edition = "2021"
publish = false

[dependencies]
chrono = "0.4"
dotenvy = "0.15"
hex = "0.4"
hmac = "0.12"
reqwest = { version = "0.11", features = ["blocking", "json"] }
rusqlite = "0.28"
serde = { version = "1", features = ["derive"] }
serde_json = "1"
sha2 = "0.10"
