[package]
name = "meater"
version = "0.1.0"
edition = "2021"
publish = false

[dependencies]
anyhow = "1"
btleplug = "=0.13.4"
embedded-graphics = "=0.8.2"
futures = "0.3"
rppal = { version = "=0.22.1", features = ["hal"] }
sh1106 = "=0.5.0"
tokio = { version = "1", features = ["rt", "macros", "sync", "time"] }
tokio-util = "0.7"
tracing = "0.1"
tracing-subscriber = "0.3"
uuid = "1"
