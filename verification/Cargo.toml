[package]
name = "fleet_telemetry"
version = "0.1.0"
edition = "2021"
publish = false

[dependencies]
chrono = { version = "0.4", default-features = false, features = ["clock", "std", "serde"] }
serde = { version = "1", features = ["derive"] }
serde_json = "1"
tokio = { version = "1", features = ["rt-multi-thread", "macros", "time", "sync"] }
lapin = { version = "*", default-features = false }
redis = { version = "*", default-features = false, features = ["aio", "tokio-comp"] }
sqlx = { version = "*", default-features = false, features = ["postgres", "runtime-tokio"] }
dotenvy = "*"
env_logger = "*"
log = "*"
metrics = "*"
metrics-exporter-prometheus = { version = "*", default-features = false, features = ["http-listener"] }
futures-util = "*"
