[package]
name = "vga_writer"
version = "0.1.0"
edition = "2021"

[dependencies]
volatile = "0.2"
spin = "*"
lazy_static = "*"
