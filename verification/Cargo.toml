[package]
name = "kernel"
version = "0.1.0"
edition = "2021"
publish = false

[dependencies]
crossbeam-queue = "=0.2.3"
futures-util = "=0.3.34"
