[package]
name = "rss_reader"
version = "0.1.0"
edition = "2021"
publish = false

[dependencies]
md5 = "=0.7.0"
base64 = "=0.21.7"
scraper = { version = "=0.20.0", features = ["deterministic"] }
url = "=2.5.8"
feed-rs = "=2.4.0"
chrono = "=0.4.45"
uuid = { version = "=1.29.0", features = ["v4"] }
anyhow = "=1.0.104"
async-trait = "=0.1.92"
axum = "=0.7.9"
tokio = { version = "=1.54.1", features = ["full"] }
tower-http = { version = "=0.5.2", features = ["cors", "trace", "set-header", "compression-gzip"] }
reqwest = { version = "=0.12.28", default-features = false, features = ["stream", "rustls-tls"] }
deadpool-postgres = "=0.14.2"
serde = { version = "=1.0.229", features = ["derive"] }
serde_json = "=1.0.154"
clap = { version = "=4.6.7", features = ["derive"] }
toml = "=0.8.23"
tracing = "=0.1.44"
tracing-subscriber = "=0.3.23"
rust-embed = "=8.13.0"
mime_guess = "=2.0.5"
futures = "=0.3.34"
futures-core = "=0.3.34"
bytes = "=1.12.1"
