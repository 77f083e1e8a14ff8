[package]
name = "rate_window"
version = "0.1.0"
edition = "2021"
publish = false

[dependencies]
aws-config = "*"
aws_lambda_events = "*"
aws-sdk-sns = "*"
chrono = { version = "*", features = ["serde"] }
chrono-tz = "*"
lambda_runtime = "*"
reqwest = { version = "*", default-features = false, features = ["json", "rustls-tls"] }
serde = { version = "*", features = ["derive"] }
tokio = { version = "*", features = ["macros", "rt"] }
