[package]
name = "buy_me_a_coffee"
version = "0.1.0"
edition = "2021"
publish = false

[dependencies]
stylus-sdk = "*"
