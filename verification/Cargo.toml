[package]
name = "lockbook"
version = "0.1.0"
edition = "2021"
publish = false

[dependencies]
uuid = "=1.29.0"
egui = "=0.27.2"
x11rb = { version = "=0.13.2", features = ["cursor", "resource_manager"] }
serde = { version = "=1.0.229", features = ["derive"] }
tracing = "=0.1.44"
tracing-subscriber = "=0.3.23"
