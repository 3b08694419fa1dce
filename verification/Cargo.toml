[package]
name = "polyfuse"
version = "0.1.0"
edition = "2021"
publish = false

[dependencies]
futures = "=0.3.34"
libc = "=0.2.191"

[dev-dependencies]
polyfuse-kernel = "=0.2.0"
zerocopy = "=0.8.63"
