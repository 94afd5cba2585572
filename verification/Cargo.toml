[package]
name = "http_bridge"
version = "0.1.0"
edition = "2021"
publish = false

[dependencies]
tokio = { version = "*", features = ["sync", "net", "time", "rt-multi-thread"] }
axum = "*"
http = "*"
http-body-util = "*"
bytes = "*"
socket2 = { version = "*", features = ["all"] }
parking_lot = "*"
