[package]
name = "cygnus_led"
version = "0.1.0"
edition = "2021"
publish = false

[dependencies]
embassy-time = "=0.5.1"
defmt = "=1.2.0"
