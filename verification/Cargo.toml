[package]
name = "gbemulator"
version = "0.1.0"
edition = "2021"
publish = false

[dependencies]
json = "*"
rodio = { version = "*", default-features = false }
