[package]
name = "location_filter"
version = "0.1.0"
edition = "2021"
publish = false

[dependencies]
chrono = { version = "0.4", features = ["serde"] }
quicli = "0.3"
serde = "1"
serde_derive = "1"
serde_json = "1"
