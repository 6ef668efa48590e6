[package]
name = "fantray"
version = "0.1.0"
edition = "2021"
publish = false

[dependencies]
image = { version = "*", default-features = false, features = ["png"] }
tao = "*"
tokio = { version = "*", features = ["rt-multi-thread", "macros"] }
tray-icon = "*"
async-std = "*"
