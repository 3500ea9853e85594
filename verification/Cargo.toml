[package]
name = "circuit"
version = "0.1.0"
edition = "2021"
publish = false

[dependencies]
aes = "0.8"
sha3 = "0.10"
num = "0.4"
getrandom = "0.3"
