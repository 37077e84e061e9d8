[package]
name = "ebeepyf"
version = "0.1.0"
edition = "2021"
publish = false

[dependencies]
anyhow = "1"
aya = "*"
bytes = "1"
clap = { version = "4", features = ["derive"] }
rodio = "*"
tokio = { version = "1", features = ["rt-multi-thread", "macros", "signal", "sync", "time"] }
