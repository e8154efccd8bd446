[package]
name = "rustwebserver"
version = "0.1.0"
edition = "2021"
publish = false

[dependencies]
hyper = { version = "0.14", features = ["full"] }
mime_guess = "2"
tokio = { version = "1", features = ["full"] }
url = "2"
