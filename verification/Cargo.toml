[package]
name = "bb_rust"
version = "0.1.0"
edition = "2021"
publish = false

[dependencies]
base64 = "=0.13.1"
flate2 = "=1.1.10"
serde_json = { version = "=1.0.154", features = ["raw_value"] }
serde = { version = "=1.0.229", features = ["derive"] }
serde_bytes = "=0.11.19"
serde_with = { version = "=3.24.0", features = ["json"] }
thiserror = "=1.0.69"
anyhow = "=1.0.104"
log = "=0.4.34"
env_logger = "=0.11.11"
lazy_static = "=1.5.1"
cached = { version = "=4.0.3", features = ["async"] }
tokio = { version = "=1.54.1", features = ["sync", "macros", "rt-multi-thread"] }
aws-config = "=1.13.0"
aws-types = "=1.7.0"
aws-sdk-lambda = "=1.154.0"
aws-sdk-apigateway = { version = "*", default-features = false, features = ["rustls", "default-https-client", "rt-tokio"] }
aws-sdk-cloudformation = { version = "*", default-features = false, features = ["rustls", "default-https-client", "rt-tokio"] }
aws-sdk-cognitoidentityprovider = { version = "*", default-features = false, features = ["rustls", "default-https-client", "rt-tokio"] }
aws-sdk-dynamodb = { version = "*", default-features = false, features = ["rustls", "default-https-client", "rt-tokio"] }
aws-sdk-iot = { version = "*", default-features = false, features = ["rustls", "default-https-client", "rt-tokio"] }
aws-sdk-organizations = { version = "*", default-features = false, features = ["rustls", "default-https-client", "rt-tokio"] }
aws-sdk-s3 = { version = "*", default-features = false, features = ["rustls", "default-https-client", "rt-tokio"] }
aws-sdk-secretsmanager = { version = "*", default-features = false, features = ["rustls", "default-https-client", "rt-tokio"] }
aws-sdk-ssm = { version = "*", default-features = false, features = ["rustls", "default-https-client", "rt-tokio"] }
aws-sdk-sts = { version = "*", default-features = false, features = ["rustls", "default-https-client", "rt-tokio"] }
napi = "*"
