[package]
name = "sim"
version = "0.1.0"
edition = "2021"
publish = false

[dependencies]
fastnum = { version = "=0.7.5", features = ["serde"] }
godot = "*"
serde = { version = "=1.0.229", features = ["derive"] }
