[package]
name = "openssl_rsa"
version = "0.1.0"
edition = "2021"
publish = false

[dependencies]
libc = "0.2"
openssl-sys = "0.9"
