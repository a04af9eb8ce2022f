[package]
name = "girage"
version = "0.1.0"
edition = "2021"
publish = false

[dependencies]
age = { version = "*", features = ["armor"] }
secrecy = "*"
tar = "*"
