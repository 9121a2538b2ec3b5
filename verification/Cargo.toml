[package]
name = "device_flow"
version = "0.1.0"
edition = "2021"
publish = false

[dependencies]
serde_json = "=1.0.154"
reqwest = { version = "=0.13.5", features = ["form"] }
tokio = { version = "=1.54.1", features = ["macros", "rt-multi-thread", "time"] }
spinners = "=4.2.0"
