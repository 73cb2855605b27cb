[package]
name = "temporal"
version = "0.1.0"
edition = "2021"
publish = false

[dependencies]
url = "2"
serde = { version = "1", features = ["derive"] }
serde_json = "1"
fastrand = "2"
tokio = { version = "1", features = ["full"] }
tokio-util = "0.7"
futures = "0.3"
parking_lot = "0.12"
thiserror = "1"
tracing = "0.1"
syn = { version = "2", features = ["full"] }
quote = "1"
proc-macro2 = "1"
tonic = "*"
testcontainers = "0.15"
temporalio-client = "*"
temporalio-common = "*"
temporalio-sdk-core = "*"
