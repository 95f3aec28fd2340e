[package]
name = "backend"
version = "0.1.0"
edition = "2021"
publish = false

[dependencies]
axum = "=0.8.9"
axum-extra = { version = "=0.12.6", features = ["cookie-private"] }
base64 = "=0.21.7"
chrono = { version = "=0.4.45", features = ["serde"] }
fastrand = "=2.5.0"
http = "=1.5.0"
infer = "=0.22.0"
reqwest = "=0.13.5"
serde = { version = "=1.0.229", features = ["derive"] }
serde_json = "=1.0.154"
shuttle-axum = "=0.57.0"
shuttle-runtime = "=0.57.0"
shuttle-shared-db = { version = "=0.57.0", features = ["postgres", "sqlx"] }
sqlx = { version = "0.8", features = ["runtime-tokio", "tls-rustls", "postgres", "chrono", "json", "macros", "migrate"] }
time = "=0.3.55"
tower = "=0.5.3"
tower-http = { version = "=0.6.11", features = ["cors", "fs"] }
uuid = { version = "=1.29.0", features = ["v4"] }
