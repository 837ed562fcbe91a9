[package]
name = "cart_decode"
version = "0.1.0"
edition = "2021"
publish = false

[dependencies]
serde_json = "1"
