[package]
name = "dwm1001_async"
version = "0.1.0"
edition = "2021"
publish = false

[dependencies]
cortex-m = "=0.7.10"
critical-section = { version = "=1.2.0", features = ["std"] }
embedded-dma = "=0.2.0"
embedded-hal = "=1.0.0"
embedded-hal-async = "=1.0.0"
fugit = "=0.3.9"
nrf52832-hal = "=0.19.0"
rtic-monotonic = "=1.0.0"
