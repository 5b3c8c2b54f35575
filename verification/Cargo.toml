[package]
name = "reddit_offchain"
version = "0.1.0"
edition = "2021"
publish = false

[dependencies]
serde = { version = "=1.0.229", features = ["derive"] }
serde_json = "=1.0.154"
uuid = { version = "=1.29.0", features = ["v4"] }
chrono = "=0.4.45"
axum = "=0.8.9"
tokio = { version = "=1.54.1", features = ["full"] }
tower = "=0.5.3"
tower-http = { version = "=0.6.11", features = ["cors"] }
tracing = "=0.1.44"
futures-util = "=0.3.34"
async-trait = "=0.1.92"
redis = { version = "=1.8.1", default-features = false, features = ["tokio-comp", "aio", "script"] }
lapin = "=4.12.3"
deadpool = "=0.13.1"
deadpool-lapin = "=0.14.0"
deadpool-redis = "=0.23.1"
sea-orm = { version = "=1.1.20", default-features = false, features = ["macros", "with-json", "with-chrono", "with-uuid", "sqlx-postgres", "runtime-tokio"] }
rdkafka = { version = "=0.39.0", default-features = false }
reqwest = { version = "*", default-features = false }
reqwest-websocket = "*"
