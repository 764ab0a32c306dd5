[package]
name = "rsx_a11y"
version = "0.1.0"
edition = "2021"
publish = false

[dependencies]
clap = { version = "4", features = ["derive"] }
colored = "2"
dunce = "1"
proc-macro2 = { version = "1", features = ["span-locations"] }
rstml = "0.12"
serde = { version = "1", features = ["derive"] }
serde_json = "1"
syn = { version = "2", features = ["full", "visit"] }
walkdir = "2"
