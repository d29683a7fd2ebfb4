[package]
name = "server-sent-events"
version = "0.1.0"
edition = "2021"
publish = false

[dependencies]
http = "=1.5.0"
mime = "=0.3.17"
futures-util = "=0.3.34"
async-interval = { version = "=0.4.0", features = ["impl_tokio"] }
futures-stream-select-ext = "=0.1.3"
async-timer = "=0.7.4"
tokio = { version = "=1.54.1", features = ["time", "rt", "macros"] }
