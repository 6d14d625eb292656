[package]
name = "ws_session"
version = "0.1.0"
edition = "2021"
publish = false

[dependencies]
http = "1"
futures-util = "0.3"
tokio = { version = "1", features = ["rt-multi-thread", "macros", "sync", "time"] }
tokio-tungstenite = { version = "*", features = ["native-tls"] }
native-tls = "0.2"
