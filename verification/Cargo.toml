[package]
name = "rust_http_server"
version = "0.1.0"
edition = "2021"
publish = false

[dependencies]
bufstream = "0.1"
chrono = { version = "0.4", default-features = false, features = ["clock"] }
http = "1"
