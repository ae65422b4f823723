[package]
name = "radio_check"
version = "0.1.0"
edition = "2021"
publish = false

[dependencies]
env_filter = "0.1"
log = "0.4"
serde = { version = "1", features = ["derive"] }
serde_json = "1"
enigo = "*"
arboard = "3"
