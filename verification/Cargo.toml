[package]
name = "portfolio_ledger"
version = "0.1.0"
edition = "2021"
publish = false

[dependencies]
chrono = { version = "0.4", features = ["serde"] }
rand = "0.8"
serde = { version = "1", features = ["derive"] }
serde_json = "1"
postgres = { version = "0.19", features = ["with-chrono-0_4"] }
reqwest = { version = "0.11", default-features = false, features = ["blocking", "rustls-tls"] }
dotenv = "0.15"
