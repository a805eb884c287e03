[package]
name = "spsc_pump"
version = "0.1.0"
edition = "2021"
publish = false

[dependencies]
bounded-spsc-queue = "*"
futures = "0.1"
mio = "0.6"
