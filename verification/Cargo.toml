[package]
name = "auto_fuzz_test"
version = "0.1.0"
edition = "2021"
publish = false

[dependencies]
toml = "0.5"
syn = { version = "1", features = ["full", "visit", "extra-traits"] }
quote = "1"
proc-macro2 = "1"
fs3 = "0.5"
