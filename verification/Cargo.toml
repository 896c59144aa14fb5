[package]
name = "aws_secrets"
version = "0.1.0"
edition = "2021"
publish = false

[dependencies]
async-trait = "=0.1.92"
aws-config = { version = "=1.13.0", default-features = false, features = ["behavior-version-latest", "rt-tokio"] }
aws-sdk-secretsmanager = { version = "=1.123.0", default-features = false, features = ["behavior-version-latest", "rt-tokio"] }
aws-sdk-ssm = { version = "=1.131.0", default-features = false, features = ["behavior-version-latest", "rt-tokio"] }
aws-smithy-runtime-api = { version = "=1.19.1", features = ["client"] }
aws-smithy-types = "=1.9.0"
serde = "=1.0.229"
serde_json = "=1.0.154"
thiserror = "=1.0.69"
