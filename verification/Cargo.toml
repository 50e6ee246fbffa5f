[package]
name = "ruskit"
version = "0.1.0"
edition = "2021"
publish = false

[dependencies]
regex = "=1.13.1"
chrono = "=0.4.45"
Inflector = "=0.11.4"
redis = { version = "=0.25.5", default-features = false, features = ["aio", "tokio-comp"] }
serde = { version = "=1.0.229", features = ["derive"] }
serde_json = "=1.0.154"
clap = { version = "=4.6.7", features = ["derive"] }
tokio = { version = "=1.54.1", features = ["full"] }
axum = "=0.7.9"
sqlx = { version = "=0.7.4", default-features = false, features = ["sqlite", "runtime-tokio"] }
uuid = { version = "=1.29.1", features = ["v4"] }
async-trait = "=0.1.92"
once_cell = "=1.21.4"
reqwest = { version = "0.12", default-features = false, features = ["json"] }
tokio-cron-scheduler = "*"
console = "0.15"
dotenvy = "0.15"
tower = { version = "0.5", features = ["util"] }
thiserror = "1"
lazy_static = "1"
