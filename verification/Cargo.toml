[package]
name = "veifka"
version = "0.1.0"
edition = "2021"
publish = false

[dependencies]
fjall = "2"
redis-protocol = { version = "*", features = ["bytes", "codec"] }
tokio = { version = "1", features = ["rt-multi-thread", "macros", "net", "io-util"] }
tokio-util = { version = "0.7", features = ["codec"] }
futures = "0.3"
thiserror = "1"

[dev-dependencies]
tempfile = "3"
