[package]
name = "router-hello"
version = "0.1.0"
edition = "2021"
publish = false

[dependencies]
askama = "0.12"
clap = { version = "4", features = ["derive"] }
hyper = { version = "0.14", features = ["full"] }
rustyline = "*"
tokio = { version = "1", features = ["full"] }
