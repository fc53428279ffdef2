[package]
name = "rust_healthcheck"
version = "0.1.0"
edition = "2021"
publish = false

[dependencies]
anyhow = "*"
clap = { version = "*", features = ["derive"] }
futures = "*"
metrics = "*"
rand = "*"
reqwest = { version = "*", default-features = false, features = ["rustls-tls"] }
schemars = "*"
serde = { version = "*", features = ["derive"] }
serde_json = "*"
serde_yaml = "*"
tokio = { version = "*", features = ["rt-multi-thread", "macros", "time", "sync"] }
tracing = "*"
tracing-subscriber = { version = "*", features = ["env-filter", "json"] }
url = "*"
