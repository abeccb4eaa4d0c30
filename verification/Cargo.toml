[package]
name = "aggo_agent"
version = "0.1.0"
edition = "2021"
publish = false

[dependencies]
golem-rust = { version = "=1.11.0", features = ["golem_ai"] }
golem-wasi-http = "=0.2.0"
serde = { version = "=1.0.229", features = ["derive"] }
serde_json = "=1.0.151"
