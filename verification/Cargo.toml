[package]
name = "thunderscope"
version = "0.1.0"
edition = "2021"
publish = false

[dependencies]
vmap = "*"
libc = "0.2"
