[package]
name = "bucketviewer"
version = "0.1.0"
edition = "2021"
publish = false

[dependencies]
aws-sdk-s3 = "*"
aws-config = { version = "*", features = ["behavior-version-latest"] }
aws-credential-types = "*"
aws-smithy-types = "*"
url = "*"
tokio = { version = "*", features = ["rt-multi-thread", "macros", "sync", "fs"] }
reqwest = { version = "*", default-features = false }
serde = { version = "*", features = ["derive"] }
serde_json = "*"
