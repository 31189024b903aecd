[package]
name = "oxide-auth-axum"
version = "0.1.0"
edition = "2021"
publish = false

[dependencies]
axum = { version = "*", default-features = false }
oxide-auth = "*"
