[package]
name = "frum"
version = "0.1.0"
edition = "2021"
publish = false

[dependencies]
csv = "*"
reqwest = { version = "*", default-features = false, features = ["blocking"] }
tempfile = "*"
