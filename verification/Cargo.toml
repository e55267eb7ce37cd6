[package]
name = "rwtrace"
version = "0.1.0"
edition = "2021"
publish = false

[dependencies]
byteorder = "1"
hashbrown = "0.14"
wat = "1"
revm-primitives = { version = "4", default-features = false }
