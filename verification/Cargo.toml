[package]
name = "flows"
version = "0.1.0"
edition = "2021"
publish = false

[dependencies]
embassy-time = "*"
heapless = "*"
tokio = { version = "1", features = ["rt", "time"] }
