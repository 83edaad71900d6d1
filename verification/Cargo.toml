[package]
name = "webring"
version = "0.1.0"
edition = "2021"
publish = false

[dependencies]
lambda_http = "*"
tokio = { version = "*", features = ["macros", "io-util"] }
async-compat = "*"
async-io = "*"
aws-config = { version = "*", default-features = false, features = ["behavior-version-latest"] }
aws-sdk-s3 = { version = "*", default-features = false, features = ["rt-tokio"] }
