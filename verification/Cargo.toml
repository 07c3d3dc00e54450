[package]
name = "hello_hv"
version = "0.1.0"
edition = "2021"
publish = false

[dependencies]
applevisor = "=0.1.3"
