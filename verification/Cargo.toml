[package]
name = "tinywindow"
version = "0.1.0"
edition = "2021"
publish = false

[dependencies]
hmac = "=0.12.1"
sha2 = "=0.10.9"
rand = "=0.8.8"
rand_chacha = "=0.3.1"
