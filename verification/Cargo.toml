[package]
name = "avd_health_monitor"
version = "0.1.0"
edition = "2021"
publish = false

[dependencies]
chrono = "0.4"
image = { version = "0.25", default-features = false, features = ["png"] }
jsonschema = { version = "*", default-features = false }
once_cell = "1"
parking_lot = "0.12"
reqwest = { version = "0.12", default-features = false }
schemars = "*"
serde = { version = "1", features = ["derive"] }
serde_json = "1"
surge-ping = "*"
tokio = { version = "1", features = ["net", "rt", "time"] }
winreg = "*"
