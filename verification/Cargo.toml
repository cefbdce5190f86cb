[package]
name = "crossfire_oneshot"
version = "0.1.0"
edition = "2021"
publish = false

[dependencies]
pin-project-lite = "0.2"
tokio = { version = "1", features = ["rt", "rt-multi-thread", "time"] }
