[package]
name = "sby_buoy"
version = "0.1.0"
edition = "2021"
publish = false

[dependencies]
ambiq-hal = { version = "=0.3.3", features = ["ambiq-sdk", "sparkfun-redboard", "rt"] }
cortex-m-rt = "=0.7.7"
defmt = "=0.3.101"
nb = "=1.1.0"
panic-halt = "=1.0.0"
