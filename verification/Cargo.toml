[package]
name = "eventbuzz"
version = "0.1.0"
edition = "2021"
publish = false

[dependencies]
async-trait = "0.1"
dashmap = "6.1"
tokio = { version = "1", features = ["macros", "rt-multi-thread", "sync", "time"] }
