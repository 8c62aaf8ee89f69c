[package]
name = "fmu_runner"
version = "0.1.0"
edition = "2021"
publish = false

[dependencies]
zip = "*"
tempfile = "*"
libloading = "*"
libc = "*"
