[package]
name = "rust_edis"
version = "0.1.0"
edition = "2021"
publish = false

[dependencies]
anyhow = "1"
clap = { version = "4", features = ["derive"] }
rand = "0.8"
scc = "2"
tokio = { version = "1", features = ["full"] }
