[package]
name = "crash_course"
version = "0.1.0"
edition = "2021"
publish = false

[dependencies]
rand = "0.8.5"
tokio = { version = "1", features = ["rt", "time", "sync"] }
