[package]
name = "livestream_notifier"
version = "0.1.0"
edition = "2021"
publish = false

[dependencies]
axum = "=0.6.20"
chrono = "=0.4.45"
dotenv = "=0.15.0"
futures = "=0.3.34"
mongodb = "=2.8.2"
poise = "=0.5.7"
quick-xml = { version = "=0.31.0", features = ["serialize"] }
reqwest = { version = "=0.11.27", default-features = false, features = ["rustls-tls"] }
serde = { version = "=1.0.229", features = ["derive"] }
serde_json = "=1.0.154"
tokio = { version = "=1.54.1", features = ["full"] }
tokio-cron-scheduler = "=0.9.4"
uuid = "=1.29.0"

[dev-dependencies]
regex = "=1.13.1"
