[package]
name = "land_js"
version = "0.1.0"
edition = "2021"
publish = false

[dependencies]
anyhow = "=1.0.104"
http = "=0.2.12"
land-sdk = "=0.1.4"
once_cell = "=1.21.4"
rquickjs = { version = "=0.14.0", features = ["loader", "array-buffer"] }
