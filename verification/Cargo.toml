[package]
name = "rreq"
version = "0.1.0"
edition = "2021"
publish = false

[dependencies]
rustfft = "=6.4.1"
jack = "=0.8.4"
iced = { version = "=0.9.0", default-features = false, features = ["glow"] }
