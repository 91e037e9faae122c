[package]
name = "arm_generic_timer"
version = "0.1.0"
edition = "2021"
publish = false

[dependencies]
bitflags = "2"
safe-mmio = "*"
zerocopy = { version = "0.8", features = ["derive"] }
