[package]
name = "mag_i2c"
version = "0.1.0"
edition = "2021"
publish = false
