[package]
name = "flagmod"
version = "0.1.0"
edition = "2021"
publish = false

[dependencies]
anyhow = "*"
dotenv = "*"
tokio = { version = "*", features = ["rt-multi-thread", "macros"] }
tracing = "*"
tracing-subscriber = "*"
twilight-gateway = "*"
twilight-http = "*"
twilight-model = "*"
