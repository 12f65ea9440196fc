[package]
name = "memetool"
version = "0.1.0"
edition = "2021"
publish = false

[dependencies]
image = "*"
mime_guess = "*"
aws-sdk-s3 = "*"
aws-types = "*"
tokio = { version = "*", features = ["rt-multi-thread", "sync", "macros", "fs", "io-util"] }
serde = { version = "*", features = ["derive"] }
serde_json = "*"
shellexpand = "*"
humansize = "*"
