[package]
name = "yarhs"
version = "0.1.0"
edition = "2021"
publish = false

[dependencies]
chrono = "*"
http-body-util = "*"
hyper = { version = "*", features = ["http1", "server"] }
hyper-util = { version = "*", features = ["tokio"] }
serde = { version = "*", features = ["derive"] }
serde_json = "*"
socket2 = "*"
tokio = { version = "*", features = ["full"] }
toml = "*"
