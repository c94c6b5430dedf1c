[package]
name = "fints"
version = "0.1.0"
edition = "2021"
publish = false

[dependencies]
base64 = "*"
chrono = "*"
rand = "*"
encoding_rs = "*"
reqwest = { version = "*", default-features = false, features = ["blocking"] }
