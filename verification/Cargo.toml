[package]
name = "weak_com"
version = "0.1.0"
edition = "2021"
publish = false

[dependencies]
winapi = { version = "0.3", features = ["unknwnbase", "winerror"] }
