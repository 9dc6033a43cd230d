[package]
name = "mcp_pos"
version = "0.1.0"
edition = "2021"
publish = false

[dependencies]
chrono = "=0.4.45"
uuid = { version = "=1.29.0", features = ["v4"] }
sha2 = "0.10"
serde = { version = "=1.0.229", features = ["derive"] }
serde_json = "=1.0.154"
rmcp = { version = "=3.8.0", features = ["server", "macros", "transport-io"] }
tokio = { version = "=1.54.1", features = ["macros", "rt-multi-thread", "io-std"] }
