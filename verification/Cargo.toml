[package]
name = "cargo_mobile"
version = "0.1.0"
edition = "2021"
publish = false

[dependencies]
duct = "0.13"
thiserror = "1"
