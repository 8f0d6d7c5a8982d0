[package]
name = "kvdynamodb_lib"
version = "0.1.0"
edition = "2021"
publish = false

[dependencies]
chrono = "*"
aws-sdk-dynamodb = "*"
tokio = { version = "*", features = ["rt-multi-thread", "macros", "sync"] }
