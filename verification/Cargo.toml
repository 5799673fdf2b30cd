[package]
name = "motosan_agent_primitives"
version = "0.3.0"
edition = "2021"
publish = false

[dependencies]
async-trait = "0.1"
chrono = { version = "0.4", default-features = false, features = ["serde", "clock"] }
serde = { version = "1", features = ["derive"] }
serde_json = "1"
tokio-util = "0.7"
uuid = { version = "1", features = ["v4", "serde"] }
