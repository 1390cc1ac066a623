[package]
name = "mcu_link"
version = "0.1.0"
edition = "2021"
publish = false

[dependencies]
tokio = { version = "1", features = ["rt-multi-thread", "net", "io-util", "time", "sync", "macros"] }
tokio-serial = "5"
serialport = { version = "4", default-features = false }
