[package]
name = "dialogue_core"
version = "0.1.0"
edition = "2021"

[dependencies]
proc-macro2 = "=1.0.107"
quote = "=1.0.47"
syn = { version = "=3.0.6", features = ["full"] }
