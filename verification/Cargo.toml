[package]
name = "prussia"
version = "0.1.0"
edition = "2021"
publish = false

[dependencies]
aligned = "0.4"
bitfield-struct = "*"
bitflags = "1"
