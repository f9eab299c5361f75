[package]
name = "serverless-web"
version = "0.1.0"
edition = "2021"
publish = false

[dependencies]
anyhow = "=1.0.104"
http = "=1.5.0"
serde = "=1.0.229"
serde_json = "=1.0.154"
spin-sdk = "3.1.1"
worker = "=0.8.7"
