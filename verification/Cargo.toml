[package]
name = "novakey"
version = "0.1.0"
edition = "2021"
publish = false

[dependencies]
rand = "0.8"
cocoa = "*"
objc = "0.2"
libc = "0.2"
