[package]
name = "determinishtic"
version = "0.1.0"
edition = "2021"
publish = false

[dependencies]
sacp = "*"
sacp-conductor = "*"
schemars = "*"
serde = { version = "1", features = ["derive"] }
tokio = { version = "1", features = ["rt", "sync"] }
tracing = "0.1"
