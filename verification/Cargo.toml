[package]
name = "automap"
version = "0.1.0"
edition = "2021"
publish = false

[dependencies]
nusb = { version = "=0.2.7", features = ["smol"] }
futures-lite = "=2.6.1"
