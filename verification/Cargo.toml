[package]
name = "macchina-read"
version = "0.1.0"
edition = "2021"
publish = false

[dependencies]
sysctl = "0.4"
libc = "0.2"
core-foundation = "*"
mach = "*"
objc = "*"
objc-foundation = "*"
