[package]
name = "friendship"
version = "0.1.0"
edition = "2021"
publish = false

[dependencies]
actix-web = "=4.18.1"
anyhow = "=1.0.104"
chrono = "=0.4.45"
dotenv = "=0.15.0"
env_logger = "=0.10.2"
kafka = { version = "=0.9.0", default-features = false }
log = "=0.4.34"
neo4rs = "=0.6.2"
r2d2 = "=0.8.10"
rdkafka = "=0.29.0"
redis = { version = "=0.23.5", features = ["tokio-comp"] }
serde = { version = "=1.0.229", features = ["derive"] }
serde_json = { version = "=1.0.154", features = ["raw_value"] }
tokio = { version = "=1.54.1", features = ["full"] }
