[package]
name = "status-page"
version = "0.1.0"
edition = "2021"
publish = false

[dependencies]
argon2 = { version = "=0.5.3", features = ["std"] }
askama = "=0.14.0"
askama_web = { version = "=0.14.7", features = ["axum-0.8"] }
axum = "=0.8.9"
axum-extra = { version = "=0.10.3", features = ["form"] }
chrono = "=0.4.45"
mime_guess = "=2.0.5"
r2d2 = "=0.8.10"
r2d2_sqlite = "=0.35.0"
reqwest = { version = "=0.12.28", default-features = false }
rusqlite = { version = "=0.40.2", features = ["bundled"] }
rust-embed = "=8.13.0"
serde = { version = "=1.0.229", features = ["derive"] }
serde_json = "=1.0.154"
tokio = { version = "=1.54.1", features = ["full"] }
tower-http = { version = "=0.6.11", features = ["compression-gzip"] }
tracing = "=0.1.44"
tracing-subscriber = { version = "=0.3.23", features = ["env-filter"] }
uuid = { version = "=1.29.0", features = ["v4"] }
