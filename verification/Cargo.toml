[package]
name = "engine"
version = "0.1.0"
edition = "2021"
publish = false

[dependencies]
ahash = "0.8"
ash = "0.37"
ash-window = "0.12"
backtrace = "0.3"
mimalloc = "0.1"
raw-window-handle = "0.5"
shaderc = "0.8"
thiserror = "1"
time = { version = "0.3", features = ["macros", "local-offset"] }
tracing = "0.1"
tracing-appender = "0.2"
tracing-subscriber = { version = "0.3", features = ["env-filter", "local-time"] }
winit = "0.28"
