[package]
name = "workday_sftp_rest_server"
version = "0.1.0"
edition = "2021"
publish = false

[dependencies]
sha2 = "=0.10.9"
regex = "=1.13.1"
serde_json = "=1.0.154"
csv = "=1.4.0"
chrono = { version = "=0.4.45", features = ["serde"] }
url = "=2.5.8"
serde = { version = "=1.0.229", features = ["derive"] }
anyhow = "=1.0.104"
clap = { version = "=4.6.7", features = ["derive"] }
toml = "=1.1.8"
tokio = { version = "=1.54.1", features = ["full"] }
axum = "=0.8.9"
axum-auth = "=0.8.1"
axum-extra = "=0.12.6"
axum-server = { version = "=0.8.0", features = ["tls-rustls"] }
hyper = "=1.12.0"
lettre = { version = "=0.11.23", features = ["tokio1", "tokio1-native-tls"] }
once_cell = "=1.21.4"
r2d2-oracle = { version = "=0.7.0", features = ["chrono"] }
reqwest = { version = "=0.13.5", features = ["json"] }
suppaftp = "=12.2.1"
async-stream = "=0.3.6"
tracing = "=0.1.44"
tracing-subscriber = { version = "=0.3.23", features = ["json"] }
glob = "=0.3.4"
