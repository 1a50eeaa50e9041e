[package]
name = "vrlh_power_manager_core"
version = "0.1.0"
edition = "2021"
publish = false

[dependencies]
async-trait = "=0.1.92"
btleplug = { version = "=0.11.8", features = ["serde"] }
futures = "=0.3.34"
serde = { version = "=1.0.229", features = ["derive"] }
thiserror = "=1.0.69"
tokio = { version = "=1.54.1", features = ["macros", "rt", "sync", "time"] }
ts-rs = "=12.0.1"
uuid = "=1.29.0"
