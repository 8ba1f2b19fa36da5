[package]
name = "benchmark_workloads"
version = "0.1.0"
edition = "2021"
publish = false

[dependencies]
sha2 = "0.10"
hex = "0.4"
rand = "0.8"
serde = { version = "1", features = ["derive"] }
serde_json = "1"
tokio = { version = "1", features = ["full"] }
lambda_runtime = "*"
aws-config = "*"
aws-sdk-dynamodb = "*"
tracing = "*"
tracing-subscriber = "*"
