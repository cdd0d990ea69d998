[package]
name = "marty_core"
version = "0.1.0"
edition = "2021"
publish = false

[dependencies]
log = "0.4"
modular-bitfield = "0.11"
