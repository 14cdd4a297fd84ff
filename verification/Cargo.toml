[package]
name = "vela"
version = "0.1.0"
edition = "2021"
publish = false

[dependencies]
evalexpr = "*"
uuid = { version = "*", features = ["v4"] }
image = { version = "*", default-features = false, features = ["png", "jpeg"] }
color-thief = "*"
