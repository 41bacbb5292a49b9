[package]
name = "acp_bridge"
version = "0.1.0"
edition = "2021"
publish = false

[dependencies]
serde_json = "=1.0.151"
agent-client-protocol = "=0.10.4"
anyhow = "1"
async-trait = "*"
serde = { version = "1", features = ["derive"] }
tokio = { version = "1", features = ["rt", "macros", "process", "sync", "fs", "time", "io-util"] }
tokio-util = { version = "*", features = ["compat"] }
reqwest = { version = "*", default-features = false, features = ["json", "rustls-tls"] }
