[package]
name = "miasma"
version = "0.1.0"
edition = "2021"
publish = false

[dependencies]
async-compression = { version = "0.4", features = ["tokio", "gzip"] }
async-stream = "=0.3.6"
axum = "=0.8.9"
base64 = "=0.22.1"
bytes = "=1.12.1"
clap = { version = "=4.6.7", features = ["derive", "env"] }
colored = "=3.1.1"
dashmap = "=6.2.1"
diesel = { version = "=2.3.14", features = ["sqlite"] }
fhtml = "=0.6.1"
futures = "=0.3.34"
rand = "=0.9.5"
reqwest = { version = "=0.12.28", default-features = false, features = ["gzip", "stream", "rustls-tls"] }
serde = { version = "=1.0.229", features = ["derive"] }
thiserror = "=2.0.21"
tokio = { version = "=1.54.1", features = ["full"] }
tokio-util = { version = "0.7", features = ["io"] }
url = "=2.5.8"
uuid = { version = "=1.29.1", features = ["v4"] }

[dev-dependencies]
scraper = "*"
