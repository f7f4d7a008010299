[package]
name = "mbed_key_management"
version = "0.1.0"
edition = "2021"
publish = false

[dependencies]
log = "=0.4.34"
parsec-interface = "=0.30.0"
psa-crypto = { version = "=0.13.0", default-features = false }
