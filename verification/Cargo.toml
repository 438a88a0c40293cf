[package]
name = "sensirion_sgp4x"
version = "0.1.0"
edition = "2021"
publish = false

[dependencies]
bitflags = "2"
bytes = "1"
embedded-hal = "1"
embedded-hal-async = "1"
measurements = "0.11"

[dev-dependencies]
embedded-hal-mock = "0.11"
sensirion-i2c = "0.4"
