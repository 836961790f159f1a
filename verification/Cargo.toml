[package]
name = "pjproject"
version = "0.1.0"
edition = "2021"
publish = false

[dependencies]
bytes = "1"
parking_lot = "0.12"
tracing = "0.1"
thiserror = "1"
