[package]
name = "tis620"
version = "0.1.0"
edition = "2021"

[dev-dependencies]
hex = "0.4"
