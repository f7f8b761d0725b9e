[package]
name = "geph_launcher"
version = "0.1.0"
edition = "2021"
publish = false

[dependencies]
anyhow = "1"
dirs = "4"
is_elevated = "*"
once_cell = "1"
platform-dirs = "*"
rand = "0.8"
serde = { version = "1", features = ["derive"] }
