[package]
name = "spacebot-homelab-mcp"
version = "0.2.2"
edition = "2021"
publish = false

[dependencies]
anyhow = "=1.0.104"
async-trait = "=0.1.92"
axum = "=0.8.9"
bollard = { version = "=0.18.1", features = ["ssl"] }
chrono = "=0.4.45"
clap = { version = "=4.6.7", features = ["derive"] }
console = "=0.15.11"
dashmap = "=6.2.1"
dialoguer = "=0.11.0"
futures = "=0.3.34"
prometheus = { version = "=0.13.4", default-features = false }
reqwest = { version = "=0.12.28", default-features = false, features = ["json", "rustls-tls"] }
rmcp = { version = "=0.3.2", features = ["server", "transport-io", "macros"] }
russh = "=0.45.0"
russh-sftp = "=2.4.0"
schemars = "=1.2.3"
serde = { version = "=1.0.229", features = ["derive"] }
serde_json = "=1.0.154"
tokio = { version = "=1.54.1", features = ["full"] }
toml = "=0.8.23"
tracing = "=0.1.44"
tracing-subscriber = { version = "=0.3.23", features = ["env-filter"] }
uuid = { version = "=1.29.0", features = ["v4"] }
