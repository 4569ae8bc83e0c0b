[package]
name = "codex_wasi_boundary"
version = "0.1.0"
edition = "2021"
publish = false

[dependencies]
anyhow = "1"
rustls = { version = "0.23", default-features = false, features = ["ring", "std"] }
serde = { version = "1", features = ["derive"] }
serde_json = "1"
tokio = { version = "1", features = ["rt", "time"] }
toml = "*"
tracing-subscriber = { version = "0.3", features = ["fmt", "env-filter"] }
