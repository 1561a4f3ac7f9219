[package]
name = "bucket_proxy"
version = "0.1.0"
edition = "2021"
publish = false

[dependencies]
actix-web = "=4.18.1"
anyhow = "=1.0.104"
aws-config = "=1.12.0"
aws-sdk-s3 = "=1.152.0"
# Not used directly. aws-config 1.12 is written against the 1.6 line of
# aws-types and does not compile against 1.7, which cargo would pick otherwise.
aws-types = "=1.6.0"
env_logger = "=0.11.11"
log = "=0.4.34"
serde = { version = "=1.0.229", features = ["derive"] }
