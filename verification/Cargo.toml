[package]
name = "tomato_novel"
version = "0.1.0"
edition = "2021"
publish = false

[dependencies]
anyhow = "*"
crossterm = "*"
image = { version = "*", default-features = false, features = ["png", "jpeg"] }
