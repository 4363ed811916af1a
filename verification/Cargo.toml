[package]
name = "simple_sensors"
version = "0.1.0"
edition = "2021"
publish = false

[dependencies]
embedded-hal = "*"
