[package]
name = "bucket_gateway"
version = "0.1.0"
edition = "2021"
publish = false

[dependencies]
anyhow = "=1.0.104"
aws-config = { version = "=1.8.18", features = ["behavior-version-latest"] }
aws-sdk-s3 = "=1.152.0"
bytes = "=1.12.1"
http-body-util = "=0.1.5"
hyper = { version = "=1.12.0", features = ["http1", "server"] }
hyper-util = { version = "=0.1.21", features = ["tokio"] }
percent-encoding = "=2.3.2"
tokio = { version = "=1.54.1", features = ["macros", "net", "rt-multi-thread"] }
