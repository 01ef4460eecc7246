[package]
name = "county_risk"
version = "0.1.0"
edition = "2021"
publish = false

[dependencies]
serde = { version = "=1.0.229", features = ["derive"] }
serde_json = "=1.0.151"
tokio = { version = "*", features = ["full"] }
axum = "*"
tower = "*"
tower-http = { version = "*", features = ["cors", "compression-gzip", "compression-deflate", "trace"] }
lambda_http = "*"
axum-aws-lambda = "*"
tracing-subscriber = { version = "*", features = ["json"] }
futures = "*"
aws-config = "*"
aws-sdk-s3 = "*"
aws-sdk-dynamodb = "*"
google_maps = "*"
