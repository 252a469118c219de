[package]
name = "dirmon"
version = "0.1.0"
edition = "2021"
publish = false

[dependencies]
interprocess = "*"
log = "*"
named_pipe = "*"
notify = "*"
pico-args = "*"
serde = { version = "*", features = ["derive"] }
simplelog = "*"
toml = "*"
windows-service = "*"
