[package]
name = "captcha_solver_ui"
version = "0.1.0"
edition = "2021"
publish = false

[dependencies]
image = { version = "0.25", default-features = false }
slint = { version = "*", default-features = false, features = ["std", "compat-1-2"] }
