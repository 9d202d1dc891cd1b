[package]
name = "stream_alerts"
version = "0.1.0"
edition = "2021"
publish = false

[dependencies]
serde_json = { version = "=1.0.154", features = ["preserve_order"] }
serde = { version = "=1.0.229", features = ["derive"] }
comrak = { version = "=0.44.0", default-features = false }
nanoid = "=0.4.0"
scrypt = "=0.11.0"
rand = "=0.8.8"
tokio = { version = "=1.54.1", features = ["full"] }
axum = { version = "=0.7.9", features = ["ws"] }
futures = "=0.3.34"
clap = { version = "=4.6.7", features = ["derive", "env"] }
eyre = "=0.6.14"
tracing = "=0.1.44"
tracing-subscriber = { version = "=0.3.23", features = ["env-filter"] }
tokio-tungstenite = "=0.24.0"
axum-login = "=0.16.0"
dotenvy = "=0.15.7"
color-eyre = "=0.6.5"
tracing-error = "=0.2.1"
forwarded-header-value = "*"
tower-http = { version = "*", features = ["trace", "fs"] }
