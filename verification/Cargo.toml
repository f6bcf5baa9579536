[package]
name = "firmware"
version = "0.1.0"
edition = "2021"
publish = false

[dependencies]
critical-section = "=1.2.0"
embassy-embedded-hal = "=0.6.0"
embassy-rp = { version = "=0.10.0", features = ["rp235xa"] }
embassy-time = "=0.5.1"
embedded-hal = "=1.0.0"
embedded-hal-bus = "=0.3.0"
embedded-sdmmc = "=0.10.0"
pio = "=0.3.0"
rp235x-hal = "=0.4.0"
