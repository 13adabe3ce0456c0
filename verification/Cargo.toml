[package]
name = "file_service"
version = "0.1.0"
edition = "2021"
publish = false

[dependencies]
async-trait = "=0.1.92"
async_zip = { version = "=0.0.17", features = ["tokio", "deflate"] }
axum = { version = "=0.7.9", features = ["multipart"] }
axum-extra = { version = "=0.9.6", features = ["typed-header", "query"] }
base64 = "=0.22.1"
bson = "=2.15.0"
chrono = { version = "=0.4.45", features = ["serde"] }
dirs = "=5.0.1"
futures = "=0.3.34"
headless_chrome = "=1.0.22"
image = { version = "=0.25.10", default-features = false, features = ["png", "jpeg", "gif"] }
mime_guess = "=2.0.5"
minijinja = "=2.24.0"
minijinja-contrib = { version = "=2.24.0", features = ["datetime", "timezone"] }
mongodb = "=3.9.1"
serde = { version = "=1.0.229", features = ["derive"] }
serde_json = "=1.0.154"
time = { version = "=0.3.55", features = ["macros", "formatting", "local-offset"] }
tokio = { version = "=1.54.1", features = ["full"] }
tokio-util = { version = "=0.7.20", features = ["io"] }
tower-http = { version = "=0.5.2", features = ["limit", "trace"] }
tracing = "=0.1.44"
tracing-subscriber = { version = "=0.3.23", features = ["env-filter", "time", "local-time"] }
utoipa = "=5.5.0"
uuid = { version = "=1.29.0", features = ["v7"] }
