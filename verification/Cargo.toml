[package]
name = "alfred_pinboard_rs"
version = "0.21.0"
edition = "2021"
publish = false

[dependencies]
alfred = "4"
alfred-rs = "0.7.1"
chrono = { version = "0.4", features = ["serde"] }
dirs = "5"
semver = "1"
serde = { version = "1", features = ["derive"] }
serde_json = "1"
