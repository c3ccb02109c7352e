[package]
name = "rok_api"
version = "0.1.0"
edition = "2021"
publish = false

[dependencies]
rok-auth = { version = "=0.6.1", features = ["axum", "magic-link"] }
rok-core = { version = "=0.6.1", features = ["crypto"] }
rok-validate = { version = "=0.3.7", features = ["axum"] }
rok-encrypt = "=0.3.0"
rok-orm = { version = "=0.6.0", features = ["postgres", "axum"] }
rok-config = "=0.1.0"
axum = "=0.8.9"
tokio = { version = "=1.54.1", features = ["macros", "rt-multi-thread", "net"] }
sqlx = { version = "=0.8.6", default-features = false, features = ["postgres", "runtime-tokio", "chrono", "macros"] }
serde = { version = "=1.0.229", features = ["derive"] }
serde_json = "=1.0.154"
chrono = { version = "=0.4.45", features = ["serde"] }
uuid = { version = "=1.29.0", features = ["v4"] }
dotenvy = "=0.15.7"
tower-http = { version = "=0.6.11", features = ["cors", "trace"] }
