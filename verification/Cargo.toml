[package]
name = "named_pipe"
version = "0.1.0"
edition = "2021"
publish = false

[dependencies]
miow = "0.3"
winapi = { version = "0.3", features = ["winerror", "ioapiset"] }
