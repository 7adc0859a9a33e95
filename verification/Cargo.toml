[package]
name = "tshare"
version = "1.0.3"
edition = "2021"
publish = false

[dependencies]
anyhow = "=1.0.104"
axum = { version = "=0.8.9", features = ["ws"] }
bcrypt = "=0.19.3"
clap = { version = "=4.6.7", features = ["derive"] }
crossterm = "=0.29.0"
ctrlc = "=3.5.2"
dashmap = "=6.2.1"
futures-util = { version = "=0.3.34", features = ["sink"] }
getrandom = "=0.4.3"
portable-pty = "=0.9.0"
reqwest = { version = "=0.12.28", default-features = false, features = ["json"] }
serde = { version = "=1.0.229", features = ["derive"] }
serde_json = "=1.0.154"
tokio = { version = "=1.54.1", features = ["full"] }
tokio-tungstenite = "=0.30.0"
tracing = "=0.1.44"
tracing-subscriber = { version = "=0.3.23", features = ["env-filter"] }
uuid = { version = "=1.29.0", features = ["v4"] }
