[package]
name = "pellx_monitor"
version = "0.1.0"
edition = "2021"
publish = false

[dependencies]
clap = { version = "*", features = ["derive"] }
confy = "*"
humantime = "*"
humantime-serde = "*"
reqwest = { version = "*", default-features = false, features = ["blocking"] }
rppal = "*"
serde = { version = "*", features = ["derive"] }
