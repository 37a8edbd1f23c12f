[package]
name = "synth_host"
version = "0.1.0"
edition = "2021"
publish = false

[dependencies]
serde = { version = "*", features = ["derive"] }
serde_json = "*"
tokio = { version = "*", features = ["rt-multi-thread", "sync", "time", "macros"] }
ringbuf = "*"
cpal = "*"
midir = "*"
rustysynth = "*"
