[package]
name = "termimg"
version = "0.1.0"
edition = "2021"
publish = false

[dependencies]
anyhow = "1"
crossterm = "0.27"
image = { version = "0.24", default-features = false, features = ["png", "jpeg", "gif", "bmp"] }
