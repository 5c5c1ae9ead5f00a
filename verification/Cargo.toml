[package]
name = "hacam"
version = "0.1.0"
edition = "2021"
publish = false

[dependencies]
rand = "0.9"
nusb = "0.1"
tokio = { version = "1", default-features = false, features = ["time"] }
