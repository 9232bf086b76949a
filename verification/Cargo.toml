[package]
name = "learn_async"
version = "0.1.0"
edition = "2021"
publish = false

[dependencies]
crossbeam = "0.8"
async-task = "3"
pin-utils = "0.1"
futures = "0.3"
