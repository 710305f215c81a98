[package]
name = "ministore"
version = "0.1.0"
edition = "2021"
publish = false

[dependencies]
clap = "*"
config = "*"
dotenv = "*"
io-uring = "*"
serde = { version = "*", features = ["derive"] }
tokio = { version = "*", features = ["rt-multi-thread", "fs", "io-util", "time", "macros"] }
tracing = "*"
tracing-subscriber = { version = "*", features = ["env-filter"] }
