[package]
name = "perfcnt"
version = "0.8.0"
edition = "2021"
publish = false

[dependencies]
libc = "0.2"
mmap = "0.1"
phf = "0.9"
x86 = { version = "0.52", features = ["performance-counter"] }
