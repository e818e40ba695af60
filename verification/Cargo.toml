[package]
name = "cairus"
version = "0.1.0"
edition = "2021"
publish = false

[dependencies]
linked-list = "=0.0.3"
image = { version = "=0.25.10", default-features = false }
