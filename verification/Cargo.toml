[package]
name = "mcp_agent"
version = "0.1.0"
edition = "2021"
publish = false

[dependencies]
uuid = { version = "=1.29.0", features = ["v4"] }
serde = { version = "=1.0.229", features = ["derive"] }
serde_json = "=1.0.154"
serde_yaml = "=0.9.34"
jsonschema = { version = "=0.17.1", default-features = false }
base64 = "=0.21.7"
mime_guess = "=2.0.5"
tokio = { version = "=1.54.1", features = ["rt", "rt-multi-thread", "macros", "io-util", "time", "sync", "fs", "net"] }
tracing = "=0.1.44"
tracing-subscriber = { version = "=0.3.23", features = ["env-filter"] }
log = "=0.4.35"
colored = "=2.2.0"
async-trait = "=0.1.92"
chrono = "=0.4.45"
rand = "=0.8.8"
reqwest = { version = "0.11", default-features = false, features = ["json"] }
axum = { version = "0.6", features = ["ws"] }
rustyline = "9"
env_logger = "0.10"
