[package]
name = "veter"
version = "0.1.0"
edition = "2021"
publish = false

[dependencies]
futures-util = "0.3"
prometheus = "0.13"
serde = { version = "1", features = ["derive"] }
tokio = { version = "1", features = ["macros", "rt-multi-thread", "sync"] }
tracing = "0.1"
tracing-subscriber = "0.3"
warp = "0.3"
