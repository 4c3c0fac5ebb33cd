[package]
name = "grafbase_local"
version = "0.1.0"
edition = "2021"
publish = false

[dependencies]
axum = "=0.6.20"
clap = { version = "=3.2.25", features = ["cargo"] }
colored = "=2.2.0"
dirs = "=5.0.1"
indoc = "=2.0.8"
serde = { version = "=1.0.229", features = ["derive"] }
serde_json = "=1.0.154"
sqlx = { version = "=0.6.3", default-features = false, features = ["sqlite", "runtime-tokio-rustls", "migrate"] }
tantivy = "=0.19.2"
tokio = { version = "=1.54.1", features = ["full"] }
tower-http = { version = "=0.4.4", features = ["trace"] }
