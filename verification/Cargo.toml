[package]
name = "onion_lifecycle"
version = "0.1.0"
edition = "2021"
publish = false

[dependencies]
axum = { version = "0.7", default-features = false, features = ["tokio", "http1"] }
parking_lot = "0.12"
regex = "1"
tokio = { version = "1", features = ["macros", "rt-multi-thread", "net", "process", "signal", "sync", "time"] }
