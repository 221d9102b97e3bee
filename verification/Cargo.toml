[package]
name = "argos"
version = "0.1.0"
edition = "2021"
publish = false

[dependencies]
regex = "*"
hyper = { version = "1", features = ["http1", "http2", "server"] }
hyper-util = { version = "*", features = ["tokio"] }
tokio = { version = "1", features = ["full"] }
bytes = "1"
http-body-util = "*"
serde = "1"
serde_json = "1"
boring = "*"
tokio-boring = "*"
