[package]
name = "mu_runtime"
version = "0.1.0"
edition = "2021"
publish = false

[dependencies]
serde = { version = "1", features = ["derive"] }
serde_json = "1"
hyper = { version = "0.14", features = ["client", "http1", "tcp"] }
http = "0.2"
tokio = { version = "1", features = ["rt"] }
aws_lambda_events = "0.4"
