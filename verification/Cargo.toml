[package]
name = "asyncop"
version = "0.1.0"
edition = "2021"
publish = false

[dependencies]
documented = "0.9"
futures = "0.3"
jsonrpsee = { version = "0.24", features = ["server"] }
schemars = "1"
serde = { version = "1", features = ["derive"] }
serde_json = "1"
tokio = { version = "1", features = ["rt", "sync"] }
uuid = { version = "1", features = ["v4"] }
