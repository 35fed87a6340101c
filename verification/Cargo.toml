[package]
name = "control_surface"
version = "0.1.0"
edition = "2021"
publish = false

[dependencies]
heapless = "0.8"
embedded-hal = "1.0"
embedded-hal-async = "1.0"
midly = { version = "0.5", default-features = false }
