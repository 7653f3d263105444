[package]
name = "lambda_utils"
version = "0.1.0"
edition = "2021"
publish = false

[dependencies]
chrono = "=0.4.45"
anyhow = "=1.0.104"
log = "=0.4.34"
fern = "=0.7.1"
serde = "=1.0.229"
rand = "=0.10.3"
reqwest = { version = "=0.13.5", default-features = false, features = ["gzip", "query"] }
tokio = { version = "=1.53.2", default-features = false, features = ["fs", "io-util", "time"] }
aws-config = "=1.12.0"
aws-sdk-cloudwatch = "=1.134.0"
