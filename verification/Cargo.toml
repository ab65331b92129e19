[package]
name = "punda"
version = "0.1.0"
edition = "2021"
publish = false

[dependencies]
heapless = "=0.5.6"
microbit = "=0.9.0"
cortex-m = "=0.6.7"
cortex-m-rtfm = "=0.5.3"
cortex-m-semihosting = "=0.3.7"
