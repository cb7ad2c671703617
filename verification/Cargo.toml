[package]
name = "group_core"
version = "0.1.0"
edition = "2021"
publish = false

[dependencies]
base64 = "0.22"
serde_json = "1"
uuid = { version = "1", features = ["v4"] }
chrono = "0.4"
serde = { version = "1", features = ["derive"] }
thiserror = "2"
axum = "0.8"
tokio = { version = "1", features = ["macros", "rt-multi-thread"] }
tower-http = { version = "0.6", features = ["cors"] }
aws-config = "1"
aws-sdk-dynamodb = "1"
aws-sdk-sqs = "1"
aws-sdk-ssm = "1"
serde_dynamo = { version = "4", features = ["aws-sdk-dynamodb+1"] }
lambda_http = "*"
lambda_runtime = "*"
aws_lambda_events = "*"
