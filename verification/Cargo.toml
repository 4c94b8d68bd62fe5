[package]
name = "swap_arc"
version = "0.1.0"
edition = "2021"
publish = false

[dependencies]
crossbeam-utils = "0.8"
likely_stable = "0.1"
thread_local = "1"
rand = "0.8"
