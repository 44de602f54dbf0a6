[package]
name = "croutond"
version = "0.1.0"
edition = "2021"
publish = false

[dependencies]
axum = "0.8"
bytes = "1"
chrono = "0.4"
clap = { version = "4", features = ["derive"] }
http-body-util = "0.1"
hyper = { version = "1", features = ["client", "http1"] }
hyper-util = { version = "0.1", features = ["tokio"] }
serde = { version = "1", features = ["derive"] }
serde_json = "1"
sha2 = "0.10"
shlex = "1"
socket2 = "0.5"
tokio = { version = "1", features = ["full"] }
tokio-tun = "*"
tracing = "0.1"
tracing-subscriber = { version = "0.3", features = ["env-filter"] }
