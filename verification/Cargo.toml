[package]
name = "chat_relay"
version = "0.1.0"
edition = "2021"
publish = false

[dependencies]
bcrypt = "*"
bytes = "1"
chrono = "0.4"
colored = "2"
futures = "0.3"
prettytable-rs = "0.10"
rusqlite = "*"
tokio = { version = "1", features = ["full"] }
tokio-stream = "*"
tokio-tungstenite = "*"
tokio-util = { version = "*", features = ["codec"] }
tracing = "0.1"
tracing-subscriber = "0.3"
tungstenite = "*"
