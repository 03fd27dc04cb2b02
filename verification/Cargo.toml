[package]
name = "helm_api"
version = "0.1.0"
edition = "2021"
publish = false

[dependencies]
chrono = "0.4"
comrak = "*"
serde = { version = "1", features = ["derive"] }
serde_json = "1"
serde_yaml = "*"
uuid = { version = "1", features = ["v4"] }
