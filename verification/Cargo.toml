[package]
name = "minio_dashboard"
version = "0.1.0"
edition = "2021"
publish = false

[dependencies]
hex = "*"
aws-sdk-s3 = "*"
tokio = { version = "*", features = ["macros", "rt-multi-thread"] }
clap = { version = "*", features = ["derive"] }
log = "*"
serde = { version = "*", features = ["derive"] }
