[package]
name = "license_header"
version = "0.1.0"
edition = "2021"

[dependencies]
chrono = "*"
