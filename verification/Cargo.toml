[package]
name = "task_manager"
version = "0.1.0"
edition = "2021"
publish = false

[dependencies]
axum = "=0.8.9"
chrono = { version = "=0.4.45", features = ["serde"] }
rmcp = { version = "=3.7.0", features = ["server", "macros", "transport-streamable-http-server"] }
serde = { version = "=1.0.229", features = ["derive"] }
serde_json = "=1.0.154"
shuttle-aws-rds = { version = "=0.57.0", features = ["postgres"] }
shuttle-axum = "=0.57.0"
shuttle-runtime = "=0.57.0"
sqlx = { version = "0.8", features = ["postgres", "runtime-tokio", "uuid", "chrono"] }
tokio = { version = "=1.54.1", features = ["sync", "time", "rt"] }
tracing = "=0.1.44"
uuid = { version = "=1.29.0", features = ["v4", "serde"] }
