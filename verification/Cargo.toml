[package]
name = "shapeshift_rs"
version = "0.1.0"
edition = "2021"
publish = false

[dependencies]
hyper = { version = "0.14", features = ["client", "http1", "tcp"] }
hyper-tls = "0.5"
tokio = { version = "1", features = ["rt-multi-thread", "macros", "io-util", "io-std"] }
