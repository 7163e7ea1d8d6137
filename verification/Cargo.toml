[package]
name = "gba_display"
version = "0.1.0"
edition = "2021"
publish = false

[dependencies]
embedded-graphics = "0.6"
tinytga = { version = "0.3", features = ["graphics"] }
gba = "0.3"
