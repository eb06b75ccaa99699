[package]
name = "hyper-tor-connector"
version = "0.1.0"
edition = "2021"
publish = false

[dependencies]
futures = "0.3"
hyper = { version = "0.14", features = ["client", "http1", "tcp"] }
pin-project = "1"
tokio = { version = "1", features = ["net"] }
tokio-socks = "0.5"
tower = "0.4"
