[package]
name = "pedometer"
version = "0.1.0"
edition = "2021"
publish = false

[dependencies]
cortex-m-rt = "=0.7.7"
defmt = "=1.2.0"
defmt-rtt = "=1.3.1"
embassy-executor = "=0.9.1"
embassy-sync = "=0.8.0"
embassy-time = "=0.5.1"
embedded-alloc = "=0.7.0"
embedded-hal = "=1.0.0"
embedded-hal-async = "=1.0.0"
libm = "=0.2.16"
panic-probe = { version = "=1.0.0", features = ["print-defmt"] }
