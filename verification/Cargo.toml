[package]
name = "sourcify_extractor"
version = "0.1.0"
edition = "2021"
publish = false

[dependencies]
anyhow = "=1.0.104"
blockscout-service-launcher = "*"
futures = "=0.3.34"
governor = "=0.10.4"
reqwest = { version = "=0.13.5", default-features = false, features = ["json"] }
reqwest-middleware = "=0.5.2"
reqwest-retry = "=0.9.1"
serde = { version = "=1.0.229", features = ["derive"] }
serde_json = "=1.0.154"
tokio = { version = "=1.54.1", features = ["rt-multi-thread", "macros"] }
tonic = "=0.14.6"
tracing = "=0.1.44"
