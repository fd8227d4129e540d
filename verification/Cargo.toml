[package]
name = "torexpo"
version = "0.1.0"
edition = "2021"
publish = false

[dependencies]
async-graphql = { version = "4", features = ["chrono"] }
async-graphql-axum = "4"
async-stream = "0.3"
axum = "0.5"
bincode = "1.3"
chrono = { version = "0.4", features = ["serde"] }
dashmap = "5"
futures-util = "0.3"
lazy_static = "1.4"
log = "0.4"
magic-crypt = "3.1"
pretty_env_logger = "0.4"
serde = { version = "1", features = ["derive"] }
tempfile = "3"
tokio = { version = "1", features = ["full"] }
tokio-uring = "0.4"
tower = "0.4"
tower-http = { version = "0.3", features = ["fs", "cors"] }
transmission = "0.3"
urlencoding = "2.1"
