[package]
name = "compiler_interrupts"
version = "1.0.0"
edition = "2021"

[dependencies]
nanorand = "0.7"
