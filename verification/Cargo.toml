[package]
name = "screengrab"
version = "0.1.0"
edition = "2021"
publish = false

[dependencies]
chrono = "*"
rdev = "*"
xcap = "*"
