[package]
name = "text_channel"
version = "0.1.0"
edition = "2021"
publish = false

[dependencies]
nucleo = "0.5"
devicons = "0.6"
tokio = { version = "1", features = ["rt", "rt-multi-thread", "macros"] }
ignore = "0.4"
anyhow = "1"
clap = { version = "4", features = ["derive"] }
tracing = "0.1"
