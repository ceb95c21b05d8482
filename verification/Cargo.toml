[package]
name = "discord"
version = "0.1.0"
edition = "2021"
publish = false

[dependencies]
rand = "0.8"
serde_json = "1"
serde = { version = "1", features = ["derive"] }
tokio = { version = "1", features = ["rt-multi-thread", "macros", "sync", "time", "net"] }
tokio-tungstenite = { version = "0.20", features = ["native-tls"] }
tokio-stream = "0.1"
futures-util = "0.3"
isahc = { version = "1.7", features = ["json"] }
dotenv = "0.15"
