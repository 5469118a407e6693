[package]
name = "x86_smpboot"
version = "0.1.0"
edition = "2021"
publish = false

[dependencies]
x86 = "*"
