[package]
name = "siem_alarm"
version = "0.1.0"
edition = "2021"
publish = false

[dependencies]
chrono = { version = "0.4", default-features = false, features = ["std", "serde"] }
gloo-console = "0.2"
reqwasm = "0.5"
serde = { version = "1", features = ["derive"] }
serde_json = "1"
