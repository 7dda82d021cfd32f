[package]
name = "s3_facade"
version = "0.1.0"
edition = "2021"
publish = false

[dependencies]
aws-config = "=1.12.0"
aws-sdk-s3 = "=1.152.0"
aws-types = "=1.6.0"
dotenv = "=0.15.0"
mime_guess = "=2.0.5"
tokio = { version = "=1.54.1", features = ["macros", "rt-multi-thread"] }
