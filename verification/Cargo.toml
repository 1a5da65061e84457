[package]
name = "ytdl_gate"
version = "0.2.0"
edition = "2021"
publish = false

[dependencies]
actix-web = "4"
async-stream = "0.3"
bytes = "1"
env_logger = "0.11"
serde = { version = "1", features = ["derive"] }
serde_json = "1"
tempfile = "3"
tokio = { version = "1", features = ["macros", "process", "fs", "io-util", "sync", "time", "rt-multi-thread"] }
toml = "0.8"
