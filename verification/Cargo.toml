[package]
name = "sm2335egh"
version = "0.1.0"
edition = "2021"

[dependencies]
embedded-hal = "1.0"
