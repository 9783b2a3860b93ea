[package]
name = "tcp_server"
version = "0.1.0"
edition = "2021"
publish = false

[dependencies]
arc-swap = "1"
bytes = "1"
tokio = { version = "1", features = ["net", "sync", "time", "rt-multi-thread", "macros", "io-util"] }
