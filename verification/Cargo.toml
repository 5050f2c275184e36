[package]
name = "radio-sx128x"
version = "0.1.0"
edition = "2021"
publish = false

[dependencies]
embedded-hal = { version = "=0.2.7", features = ["unproven"] }
embedded-spi = { version = "=0.6.2", default-features = false }
radio = { version = "=0.5.0", default-features = false }
log = "=0.4.34"
