[package]
name = "tcp2serial"
version = "0.1.0"
edition = "2021"
publish = false

[dependencies]
clap = { version = "*", features = ["derive"] }
futures = "*"
futures-util = "*"
log = "*"
tokio = { version = "*", features = ["full"] }
tokio-serial = "*"
tracing-subscriber = "*"
