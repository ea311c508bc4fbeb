[package]
name = "neuro_runtime"
version = "0.1.0"
edition = "2021"
publish = false

[dependencies]
url = "2"
quick-xml = "*"
regex = "1"
serde = { version = "1", features = ["derive"] }
serde_json = "1"
base64 = "*"
thiserror = "*"
anyhow = "1"
tokio = { version = "1", features = ["full"] }
reqwest = { version = "*", default-features = false, features = ["json", "rustls-tls"] }
tokio-tungstenite = "*"
futures = "0.3"
http = "*"
uuid = { version = "1", features = ["v4"] }
clap = { version = "4", features = ["derive"] }
