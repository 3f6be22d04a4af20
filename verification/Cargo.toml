[package]
name = "bytebeam"
version = "0.1.0"
edition = "2021"
publish = false

[dependencies]
tokio = { version = "*", features = ["sync", "rt-multi-thread", "macros", "net", "time"] }
rand = "*"
uuid = { version = "*", features = ["v4"] }
ssh-key = { version = "*", features = ["ed25519"] }
urlencoding = "*"
serde_json = "*"
bytesize = "*"
axum = { version = "*", features = ["multipart"] }
serde = { version = "*", features = ["derive"] }
chrono = "*"
clap = { version = "*", features = ["derive", "env"] }
async-stream = "*"
reqwest = { version = "*", default-features = false }

[dev-dependencies]
