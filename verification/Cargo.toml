[package]
name = "ruxfuse"
version = "0.1.0"
edition = "2021"
publish = false

[dependencies]
axfs_vfs = "0.1.2"
axerrno = "0.1.2"
axio = "0.1.2"
log = "0.4"
spin = "0.9"
