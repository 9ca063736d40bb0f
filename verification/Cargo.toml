[package]
name = "service2"
version = "0.1.0"
edition = "2021"
publish = false

[dependencies]
axum = "0.6"
futures-lite = "1"
lapin = "2"
tokio = { version = "1", features = ["macros", "rt-multi-thread", "signal", "time"] }
