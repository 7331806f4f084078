[package]
name = "app_hub"
version = "0.1.0"
edition = "2021"
publish = false

[dependencies]
base64 = "*"
mime_guess = "*"
clap = { version = "*", features = ["derive"] }
dirs = "*"
walkdir = "*"
glob = "*"
