[package]
name = "http_cat"
version = "0.1.0"
edition = "2021"
publish = false

[dependencies]
http = "*"
image = { version = "*", default-features = false, features = ["jpeg"] }
reqwest = { version = "*", default-features = false }
rocket = "*"
