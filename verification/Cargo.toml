[package]
name = "met_forecast"
version = "0.1.0"
edition = "2021"
publish = false

[dependencies]
chrono = "0.4"
isahc = { version = "1", features = ["json"] }
juniper = "0.16"
serde = { version = "1", features = ["derive"] }
serde_json = "1"
thiserror = "1"
