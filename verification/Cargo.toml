[package]
name = "swissdata"
version = "0.1.0"
edition = "2021"
publish = false

[dependencies]
zip = "*"
encoding_rs = "*"
urlencoding = "*"
dirs = "*"
reqwest = { version = "*", default-features = false, features = ["blocking"] }
