[package]
name = "sx1231_regs"
version = "0.1.0"
edition = "2021"
publish = false
