[package]
name = "container_rack_lib"
version = "0.1.0"
edition = "2021"
publish = false

[dependencies]
svg = "*"
clap = { version = "*", features = ["derive"] }
comfy-table = "*"
url = "*"
