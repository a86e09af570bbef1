[package]
name = "geiger"
version = "0.1.0"
edition = "2021"
publish = false

[dependencies]
syn = { version = "1", features = ["full", "visit"] }
quote = "1"
