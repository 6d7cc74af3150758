[package]
name = "picrust"
version = "0.1.0"
edition = "2021"
publish = false

[dependencies]
anyhow = "=1.0.104"
async-stream = "=0.3.6"
async-trait = "=0.1.92"
base64 = "=0.22.1"
colored = "=2.2.0"
futures = "=0.3.34"
glob = "=0.3.4"
regex = "=1.13.1"
reqwest = { version = "=0.12.28", default-features = false, features = ["json", "stream"] }
rmcp = { version = "=3.7.0", features = ["client", "transport-streamable-http-client-reqwest"] }
serde = { version = "=1.0.229", features = ["derive"] }
serde_json = "=1.0.154"
tokio = { version = "=1.54.1", features = ["full"] }
tokio-util = { version = "=0.7.20", features = ["io"] }
tracing = "=0.1.44"
tracing-appender = "=0.2.5"
tracing-subscriber = { version = "=0.3.23", features = ["env-filter"] }
