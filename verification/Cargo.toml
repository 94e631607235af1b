[package]
name = "concurrency_sync"
version = "0.1.0"
edition = "2021"
publish = false

[dependencies]
subprocess = "=1.2.1"
crossbeam-utils = "*"
