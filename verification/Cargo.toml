[package]
name = "event_ledger"
version = "0.1.0"
edition = "2021"
publish = false

[dependencies]
async-trait = "0.1"
axum = { version = "0.6", features = ["headers"] }
chrono = "0.4"
cqrs-es = "0.4"
dotenvy = "0.15"
hyper = "0.14"
postgres-es = "0.4"
serde = { version = "1", features = ["derive"] }
serde_json = "1"
serde_yaml = "0.9"
thiserror = "1"
tokio = { version = "1", features = ["full"] }
tower-http = { version = "0.4", features = ["cors"] }
tracing = "0.1"
