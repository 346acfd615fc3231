[package]
name = "eve_preview"
version = "0.1.0"
edition = "2021"
publish = false

[dependencies]
anyhow = "*"
tracing = "*"
tracing-subscriber = "*"
x11rb = { version = "*", features = ["damage", "render"] }
