[package]
name = "msg_generator"
version = "0.1.0"
edition = "2021"
publish = false

[dependencies]
futures = "0.3"
strum = { version = "0.24", features = ["derive"] }
tokio = { version = "1", features = ["time"] }
