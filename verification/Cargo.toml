[package]
name = "rust_fundamentals1"
version = "0.1.0"
edition = "2021"
publish = false

[dependencies]
flexi_logger = "*"
log = "*"
env_logger = "*"
