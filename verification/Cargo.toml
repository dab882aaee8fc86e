[package]
name = "transition_core"
version = "0.1.0"
edition = "2021"
publish = false

[dependencies]
anyhow = "1"
clap = { version = "3", features = ["derive"] }
serde = { version = "1", features = ["derive"] }
starlark_syntax = "*"
tracing = "0.1"
