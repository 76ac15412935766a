[package]
name = "bugsnag"
version = "0.2.1"
edition = "2021"
publish = false

[dependencies]
chrono = "0.4"
lazy_static = "1"
machineid-rs = "1"
serde = { version = "1", features = ["derive"] }
sys-info = "0.9"
