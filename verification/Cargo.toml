[package]
name = "mal"
version = "0.1.0"
edition = "2021"
publish = false

[dependencies]
chrono = "0.4"
minidom = "*"
reqwest = { version = "0.12", default-features = false, features = ["blocking"] }
