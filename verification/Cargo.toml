[package]
name = "slack_relay"
version = "0.1.0"
edition = "2021"
publish = false

[dependencies]
aws_lambda_events = "0.2"
base64 = "0.10"
dotenv = "0.15"
flate2 = "1.0"
lambda_runtime = "0.2"
log = "0.4"
serde_json = "1.0"
simple_logger = "1"
slack-hook = "0.8"
