[package]
name = "elevator_optimization"
version = "0.1.0"
edition = "2021"
publish = false

[dependencies]
csv = "1"
egui = "0.16"
rand = "0.8"
serde = { version = "1", features = ["derive"] }
serde_yaml = "0.9"
