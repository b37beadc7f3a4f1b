[package]
name = "live_polls"
version = "0.1.0"
edition = "2021"
publish = false

[dependencies]
axum = { version = "0.7", features = ["ws"] }
chrono = "=0.4.45"
dotenvy = "=0.15.7"
futures = "=0.3.34"
futures-util = "=0.3.34"
http = "=1.5.0"
mongodb = "=3.9.1"
serde = { version = "=1.0.229", features = ["derive"] }
serde_json = "=1.0.154"
thiserror = "=2.0.21"
tokio = { version = "=1.54.1", features = ["full"] }
tower-http = { version = "0.5", features = ["cors"] }
tower-sessions = "0.11"
tower-sessions-mongodb-store = "=0.11.0"
tracing = "=0.1.44"
tracing-subscriber = "=0.3.23"
uuid = { version = "=1.29.0", features = ["v4", "serde"] }
webauthn-rs = "=0.5.5"
