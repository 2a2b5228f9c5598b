[package]
name = "ff_standard_lib"
version = "0.1.0"
edition = "2021"
publish = false

[dependencies]
rust_decimal = "1"
chrono = "0.4"
chrono-tz = "*"
heck = "*"
