[package]
name = "empire_report_settings"
version = "0.1.0"
edition = "2021"
publish = false

[dependencies]
sendgrid = { version = "*", default-features = false }
serde = { version = "*", features = ["derive"] }
serde_json = "*"
ssql = "*"
