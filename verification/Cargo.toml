[package]
name = "doppleganger"
version = "0.1.0"
edition = "2021"
publish = false

[dependencies]
proc-macro2 = "1"
uuid = "1"
chrono = "0.4"
