[package]
name = "chuck"
version = "0.1.0"
edition = "2021"
publish = false

[dependencies]
tokio = { version = "1", features = ["rt-multi-thread", "net", "sync", "io-util", "macros"] }

[dev-dependencies]
bincode = "1"
