[package]
name = "frame_bridge"
version = "0.1.0"
edition = "2021"
publish = false

[dependencies]
archipelago_rs = "=3.0.1"
tokio = { version = "=1.53.2", features = ["rt-multi-thread", "sync", "macros", "time"] }
futures = "=0.3.34"
serde_json = "=1.0.151"
