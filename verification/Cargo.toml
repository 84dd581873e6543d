[package]
name = "zerok_macros"
version = "0.1.0"
edition = "2021"
publish = false

[dependencies]
syn = { version = "=1.0.109", features = ["full"] }
quote = "=1.0.47"
proc-macro2 = "=1.0.107"
