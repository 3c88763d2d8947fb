[package]
name = "busybody"
version = "0.1.0"
edition = "2021"
publish = false

[dependencies]
async-trait = "0.1"
futures = "0.3"
tokio = { version = "1", features = ["rt", "rt-multi-thread", "sync"] }
ulid = "1"
