[package]
name = "nexow_engine"
version = "0.1.0"
edition = "2021"
publish = false

[dependencies]
rand = "0.8"
crossbeam-channel = "0.5"
chrono = "0.4"
smartcore = "0.3"
serde = { version = "1", features = ["derive"] }
serde_json = "1"
