[package]
name = "mkdf"
version = "0.1.0"
edition = "2021"
publish = false

[dependencies]
clap = { version = "4", features = ["derive"] }
rand = "0.9"
rayon = "1"
yescrypt = "0.1.0-rc.0"
