[package]
name = "arcdps_food_reminder"
version = "0.5.0"
edition = "2021"
publish = false

[dependencies]
serde = { version = "1", features = ["derive"] }
serde_json = "1"
jsonc-parser = { version = "*", features = ["serde"] }
semver = { version = "1", features = ["serde"] }
chrono = "0.4"
once_cell = "1"
open = "*"
arcdps = "*"
