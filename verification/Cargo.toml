[package]
name = "ble_over_ip"
version = "0.1.0"
edition = "2021"
publish = false

[dependencies]
uuid = "1"
btleplug = "0.11"
bluster = "*"
clap = { version = "4", features = ["derive"] }
futures = "0.3"
futures-channel = "0.3"
tokio = { version = "1", features = ["macros", "rt-multi-thread", "time"] }
tokio-stream = "0.1"
tonic = "0.11"
prost = "0.12"
