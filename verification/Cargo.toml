[package]
name = "zeroizing_storage"
version = "0.1.0"
edition = "2021"
publish = false

[dependencies]
coca = { version = "*", features = ["alloc"] }
zeroize = { version = "*" }
