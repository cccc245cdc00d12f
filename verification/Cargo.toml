[package]
name = "bitcoin_data_mcp"
version = "0.1.0"
edition = "2021"
publish = false

[dependencies]
anyhow = "=1.0.104"
rmcp = { version = "=0.8.5", features = ["server", "transport-io"] }
serde = { version = "=1.0.229", features = ["derive"] }
serde_json = "=1.0.154"
tokio = { version = "=1.54.1", default-features = false, features = ["macros", "rt", "io-std"] }
ureq = "=2.12.1"
