[package]
name = "tiny_monitor"
version = "0.1.0"
edition = "2021"
publish = false

[dependencies]
serde = { version = "=1.0.229", features = ["derive"] }
serde_json = "=1.0.154"
ureq = "=2.12.1"
block2 = "=0.5.1"
objc2 = "=0.5.3"
objc2-app-kit = { version = "=0.2.2", features = ["all"] }
objc2-foundation = { version = "=0.2.2", features = ["all"] }
