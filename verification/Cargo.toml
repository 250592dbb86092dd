[package]
name = "sysmet"
version = "0.1.0"
edition = "2021"
publish = false

[dependencies]
chrono = { version = "0.4", default-features = false, features = ["clock", "std", "serde"] }
ciborium = "0.2"
clap = { version = "4", features = ["derive"] }
psutil = { version = "3", default-features = false, features = ["cpu", "disk", "host", "memory", "network", "sensors"] }
semver = "1"
serde = { version = "1", features = ["derive"] }
