[package]
name = "client"
version = "0.1.0"
edition = "2021"
publish = false

[dependencies]
smallvec = "1"
rand = "0.8"
thiserror = "1"
bevy = { version = "0.15", default-features = false }
