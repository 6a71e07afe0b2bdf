[package]
name = "gachitore_api"
version = "0.1.0"
edition = "2021"
publish = false

[dependencies]
jsonwebtoken = "=9.3.1"
serde_json = "=1.0.154"
uuid = { version = "=1.29.0", features = ["serde"] }
chrono = { version = "=0.4.45", features = ["serde"] }
regex = "=1.13.1"
serde = { version = "=1.0.229", features = ["derive"] }
axum = "=0.7.9"
tokio = { version = "=1.54.1", features = ["macros", "rt-multi-thread", "net", "sync"] }
reqwest = { version = "=0.12.28", default-features = false, features = ["json", "rustls-tls"] }
tracing = "=0.1.44"
tracing-subscriber = { version = "=0.3.23", features = ["env-filter"] }
tower-http = { version = "=0.5.2", features = ["cors", "trace"] }
anyhow = "=1.0.104"
thiserror = "=1.0.69"
dotenvy = "=0.15.7"

[dev-dependencies]
ring = "=0.17.14"
num-bigint = "=0.4.8"
