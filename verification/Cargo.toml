[package]
name = "rust_smart_contracts_vulns"
version = "0.1.0"
edition = "2021"
publish = false

[dependencies]
regex = "1"
hex = "0.4"
clap = { version = "4", features = ["derive"] }
colored = "2"
thiserror = "1"
