[package]
name = "zksync_telemetry"
version = "0.1.0"
edition = "2021"
publish = false

[dependencies]
anyhow = "1"
once_cell = "1"
posthog-rs = "*"
sentry = { version = "*", default-features = false }
serde_json = "1"
uuid = { version = "1", features = ["v4"] }
