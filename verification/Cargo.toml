[package]
name = "primes"
version = "0.1.0"
edition = "2021"
publish = false

[dependencies]
pico-args = "*"

[dev-dependencies]
bytemuck = "*"
