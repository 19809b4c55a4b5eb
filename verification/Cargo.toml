[package]
name = "freebsd_embedded_hal"
version = "0.1.0"
edition = "2021"
publish = false

[dependencies]
embedded-hal = "*"
libc = "*"
