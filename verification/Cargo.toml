[package]
name = "presign"
version = "0.1.0"
edition = "2021"
publish = false

[dependencies]
serde_json = "*"
aws-sdk-s3 = "*"
aws-config = "*"
lambda_runtime = "*"
tokio = { version = "*", features = ["macros", "rt-multi-thread"] }
tracing = "*"
tracing-subscriber = { version = "*", features = ["env-filter"] }
