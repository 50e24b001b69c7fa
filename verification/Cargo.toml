[package]
name = "ble_peripheral_rust"
version = "0.1.0"
edition = "2021"
publish = false

[dependencies]
tokio = { version = "1", features = ["sync", "rt", "rt-multi-thread", "time", "macros"] }
uuid = "1"

[dev-dependencies]
