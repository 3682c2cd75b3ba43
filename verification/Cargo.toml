[package]
name = "bit_repr"
version = "0.1.0"
edition = "2021"
publish = false

[dependencies]
arrow = { version = "4", default-features = false }
