[package]
name = "superbit"
version = "0.1.0"
edition = "2021"
publish = false

[dependencies]
embedded-hal = "0.2"
nrf-hal-common = { version = "0.15", features = ["52833"] }
pwm-pca9685 = "0.3"
