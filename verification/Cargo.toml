[package]
name = "gyg_template"
version = "0.1.0"
edition = "2021"
publish = false

[dependencies]
chrono = "=0.4.45"
uuid = { version = "=1.29.1", features = ["v4"] }
serde = { version = "=1.0.229", features = ["derive"] }
serde_json = "=1.0.154"
thiserror = "=2.0.21"
anyhow = "=1.0.104"
dotenvy = "=0.15.7"
tokio = { version = "=1.54.1", features = ["full"] }
rocket = { version = "=0.5.2", features = ["json"] }
rocket_cors = "=0.6.0"
redis = "=1.8.1"
kurrentdb = "=1.2.0"
horfimbor-eventsource = "=0.5.0"
horfimbor-callback-recall = "*"
