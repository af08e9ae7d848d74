[package]
name = "grayscale"
version = "0.1.0"
edition = "2021"
publish = false

[dependencies]
image = { version = "=0.25.10", default-features = false, features = ["png", "jpeg", "gif", "bmp"] }
