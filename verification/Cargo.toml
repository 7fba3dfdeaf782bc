[package]
name = "tunnel_relay"
version = "0.1.0"
edition = "2021"
publish = false

[dependencies]
httparse = "1"
tokio = { version = "1", features = ["rt", "net", "io-util", "time", "macros"] }
