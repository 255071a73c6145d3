[package]
name = "blackflower"
version = "0.1.0"
edition = "2021"
publish = false

[dependencies]
metrics = "0.24"
thiserror = "2"
