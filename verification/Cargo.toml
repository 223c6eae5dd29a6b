[package]
name = "elastic_mcp"
version = "0.4.0"
edition = "2021"
publish = false

[dependencies]
anyhow = "1"
elasticsearch = "9.1.0-alpha.1"
http = "1"
indexmap = { version = "2", features = ["serde"] }
rmcp = "0.2.1"
schemars = "0.8"
serde = { version = "1", features = ["derive"] }
serde-aux = "4"
serde_json = "1"
tracing = "0.1"
