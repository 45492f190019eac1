[package]
name = "bootstrap_macros"
version = "0.1.0"
edition = "2021"
publish = false

[dependencies]
syn = { version = "=2.0.119", default-features = false, features = ["derive", "parsing", "printing", "clone-impls", "full"] }
quote = { version = "=1.0.47", default-features = false }
proc-macro2 = { version = "=1.0.107", default-features = false }
parking_lot = "=0.12.5"
cfg-if = "=1.0.5"
