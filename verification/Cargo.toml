[package]
name = "snowplow_tracker"
version = "0.1.0"
edition = "2021"
publish = false

[dependencies]
serde_json = "1"
uuid = { version = "1", features = ["v4"] }

[dev-dependencies]
chrono = "0.4"
