[package]
name = "bottlerocket-settings-plugin"
version = "0.1.0"
edition = "2021"
publish = false

[dependencies]
abi_stable = "0.11"
lazy_static = "1"
serde = { version = "1", features = ["derive"] }
serde_json = { version = "1", features = ["raw_value"] }
syn = "2"
quote = "1"
proc-macro2 = "1"
darling = "0.20"
