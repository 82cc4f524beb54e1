[package]
name = "worldgen"
version = "0.1.0"
edition = "2021"
publish = false

[dependencies]
noise = "*"
image = { version = "*", default-features = false, features = ["png"] }
rand = "*"
log = "*"
env_logger = "*"
