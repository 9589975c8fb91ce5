[package]
name = "encounter_core"
version = "0.1.0"
edition = "2021"
publish = false

[dependencies]
rouler = "*"
rand = "*"
serde = { version = "*", features = ["derive"] }
serde_json = "*"
