[package]
name = "bitfinex"
version = "0.1.0"
edition = "2021"
publish = false

[dependencies]
ring = "=0.17.14"
hex = "=0.4.3"
serde = { version = "=1.0.229", features = ["derive"] }
serde_json = "=1.0.151"
reqwest = { version = "=0.13.5", default-features = false, features = ["query"] }
tokio = { version = "=1.53.2", features = ["time"] }
rand = "=0.10.3"
chrono = "=0.4.45"
thiserror = "=2.0.21"
