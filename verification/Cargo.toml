[package]
name = "tx3_mcp"
version = "0.1.0"
edition = "2021"
publish = false

[dependencies]
tx3-lang = "=0.25.0"
tx3-tir = "=0.19.0"
tx3-sdk = "=0.15.0"
hex = "=0.4.3"
serde_json = "1"
rmcp = { version = "=3.5.1", features = ["transport-io", "transport-streamable-http-server"] }
tokio = { version = "1", features = ["macros", "rt-multi-thread", "signal", "io-std"] }
anyhow = "1"
dotenv = "0.15"
tracing = "0.1"
tracing-subscriber = { version = "0.3", features = ["env-filter"] }
surf = { version = "=2.3.2", default-features = false, features = ["h1-client-rustls"] }
