[package]
name = "spirant"
version = "0.1.0"
edition = "2021"
publish = false

[dependencies]
heapless = "=0.9.3"
embedded-graphics = "=0.8.1"
embedded-hal-async = "=1.0.0"
display-interface = "=0.5.0"
display-interface-i2c = "=0.5.0"
ssd1306 = { version = "=0.10.0", features = ["async"] }
embassy-sync = "=0.8.0"
embassy-time = "=0.5.1"
embassy-executor = "=0.9.1"
embassy-embedded-hal = "=0.6.0"
static_cell = "=2.1.1"
defmt = "=1.2.0"
defmt-rtt = "=1.3.1"
panic-probe = { version = "=1.0.0", features = ["print-defmt"] }
