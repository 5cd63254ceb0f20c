[package]
name = "lambda_runtime_client"
version = "0.2.2"
edition = "2021"
publish = false

[dependencies]
futures = "0.1"
http = "0.1"
hyper = "0.12"
serde = "1"
serde_derive = "1"
serde_json = "1"
tokio = "0.1"
