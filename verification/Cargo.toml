[package]
name = "scroll_service"
version = "0.1.0"
edition = "2021"
publish = false

[dependencies]
ethers-core = "*"
