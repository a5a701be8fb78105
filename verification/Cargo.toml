[package]
name = "tunnel_session"
version = "0.1.0"
edition = "2021"
publish = false

[dependencies]
anyhow = "1"
clap = { version = "4", features = ["derive", "env"] }
secrecy = "0.8"
tracing = "0.1"
