[package]
name = "rain_simulator"
version = "0.1.0"
edition = "2021"
publish = false

[dependencies]
fastrand = "2"
bitflags = "2"
