[package]
name = "trading_fractals"
version = "0.1.0"
edition = "2021"
publish = false

[dependencies]
barter = "=0.8.13"
barter-data = "=0.7.0"
barter-integration = "=0.5.3"
chrono = "=0.4.45"
parking_lot = "=0.12.5"
serde = { version = "=1.0.229", features = ["derive"] }
serde_json = "=1.0.154"
tokio = { version = "=1.54.1", features = ["sync", "rt-multi-thread", "macros"] }
uuid = { version = "=1.29.0", features = ["v4"] }
