[package]
name = "turismo_core"
version = "0.1.0"
edition = "2021"
publish = false

[dependencies]
chrono = "0.4"
bigdecimal = "0.4"
serde = { version = "1", features = ["derive"] }
serde_json = "1"
uuid = { version = "1", features = ["v4"] }
async-trait = "0.1"
tracing = "0.1"
validator = { version = "*", features = ["derive"] }
