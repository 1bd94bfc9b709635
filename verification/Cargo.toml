[package]
name = "wl_scanner"
version = "0.1.0"
edition = "2021"
publish = false

[dependencies]
heck = "*"
serde = { version = "*", features = ["derive"] }
toml = "*"
proc-macro2 = "*"
