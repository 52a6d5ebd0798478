[package]
name = "autobox_link"
version = "0.1.0"
edition = "2021"
publish = false

[dependencies]
rusb = "0.9"
libc = "0.2"
input = "*"
