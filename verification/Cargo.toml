[package]
name = "stack_overflow_relay"
version = "0.1.0"
edition = "2021"
publish = false

[dependencies]
futures-channel = { version = "=0.3.34", features = ["sink"] }
futures-executor = "=0.3.34"
futures-util = { version = "=0.3.34", features = ["sink"] }
