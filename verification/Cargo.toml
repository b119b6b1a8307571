[package]
name = "mio-compositor"
version = "0.1.0"
edition = "2021"
publish = false

[dependencies]
kdl = "4"
xkbcommon = { version = "0.8", default-features = false }
