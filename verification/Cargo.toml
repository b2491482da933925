[package]
name = "fuel_indexer_lib"
version = "0.1.0"
edition = "2021"
publish = false

[dependencies]
anyhow = "*"
clap = { version = "*", features = ["derive"] }
proc-macro2 = "*"
quote = "*"
