[package]
name = "sns_sms"
version = "0.1.0"
edition = "2021"
publish = false

[dependencies]
anyhow = "1"
rusoto_core = { version = "0.48", default-features = false, features = ["rustls"] }
rusoto_sns = { version = "0.48", default-features = false, features = ["rustls"] }
