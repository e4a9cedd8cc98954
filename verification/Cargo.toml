[package]
name = "release_query"
version = "0.1.0"
edition = "2021"
publish = false

[dependencies]
roaring = "0.10"
base64 = "0.22"
serde = { version = "1", features = ["derive"] }
serde_json = "1"
anyhow = "1"
axum = { version = "0.7", features = ["macros"] }
axum-extra = { version = "0.9", features = ["query"] }
dotenv = "0.15"
elasticsearch = "8.5.0-alpha.1"
sqlx = { version = "0.7", default-features = false, features = ["sqlite", "runtime-tokio"] }
tokio = { version = "1", features = ["macros", "rt-multi-thread", "net"] }
tower-http = { version = "0.5", features = ["cors", "trace"] }
tracing = "0.1"
tracing-subscriber = { version = "0.3", features = ["env-filter"] }
