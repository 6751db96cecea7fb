[package]
name = "waker_channel"
version = "0.1.0"
edition = "2021"
publish = false

[dependencies]
atomic-waker = "1"
concurrent-queue = "2"
pin-project-lite = "0.2"
