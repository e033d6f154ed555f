[package]
name = "silentify"
version = "0.1.0"
edition = "2021"
publish = false

[dependencies]
rspotify = { version = "0.15", features = ["cli"] }
tokio = { version = "=1.54.1", features = ["macros", "rt-multi-thread", "time"] }
