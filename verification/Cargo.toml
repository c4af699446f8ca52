[package]
name = "pty_session"
version = "0.1.0"
edition = "2021"
publish = false

[dependencies]
portable-pty = "*"
dirs = "*"
log = "*"
serde = { version = "*", features = ["derive"] }
