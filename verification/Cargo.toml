[package]
name = "hass_rs"
version = "0.1.0"
edition = "2021"
publish = false

[dependencies]
tokio = { version = "1", features = ["sync", "net", "rt", "macros"] }
tokio-tungstenite = "0.26"
futures-util = { version = "0.3", features = ["sink"] }
parking_lot = "0.12"
serde = { version = "1", features = ["derive"] }
serde_json = "1"
log = "0.4"
