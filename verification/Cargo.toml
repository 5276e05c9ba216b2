[package]
name = "teleop_bridge"
version = "0.1.0"
edition = "2021"
publish = false

[dependencies]
prost = "0.13"
r2r = "*"
tokio = { version = "1", features = ["macros", "rt-multi-thread", "sync"] }
tonic = "0.12"
