[package]
name = "coverthumb"
version = "0.1.0"
edition = "2021"
publish = false

[dependencies]
image = "*"
zip = "*"
clap = { version = "*", features = ["derive"] }
env_logger = "*"
log = "*"
