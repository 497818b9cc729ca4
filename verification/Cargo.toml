[package]
name = "playout_queue"
version = "0.1.0"
edition = "2021"
publish = false

[dependencies]
hyper = "0.10"
rustc-serialize = "0.3"
slog = "2"
