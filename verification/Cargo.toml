[package]
name = "encora"
version = "0.1.0"
edition = "2021"
publish = false

[dependencies]
aes-gcm = "0.10"
chacha20 = "0.9"
rand = "0.8"
