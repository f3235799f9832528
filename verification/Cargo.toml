[package]
name = "finny"
version = "0.1.0"
edition = "2021"
publish = false

[dependencies]
arraydeque = "0.5"
slog = "2"
tracing = "0.1"
libc = "0.2"
