[package]
name = "strangler"
version = "0.1.0"
edition = "2021"
publish = false

[dependencies]
http = "0.2"
hyper = { version = "0.14", features = ["client", "http1", "tcp"] }
axum = "0.6"
tokio = { version = "1", features = ["rt", "io-util"] }
