[package]
name = "tip_term"
version = "0.1.0"
edition = "2021"
publish = false

[dependencies]
libc = "*"
portable-pty = "*"
sysinfo = "*"
