[package]
name = "gdax_client"
version = "0.1.0"
edition = "2021"
publish = false

[dependencies]
chrono = { version = "0.4", features = ["serde"] }
uuid = { version = "1", features = ["serde"] }
ws = "0.9"
hyper = "0.10"
hyper-native-tls = "0.3"
serde = "1"
serde_derive = "1"
serde_json = "1"
base64 = "0.22"
