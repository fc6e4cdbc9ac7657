[package]
name = "reaper-fts-extensions"
version = "0.1.0"
edition = "2021"
publish = false

[dependencies]
tracing = "=0.1.44"
tracing-subscriber = { version = "=0.3.23", features = ["env-filter", "fmt"] }
tracing-appender = "=0.2.5"
crossbeam-channel = "=0.5.17"
fragile = "=2.1.0"
eyre = "=0.6.14"
tokio = { version = "=1.54.1", features = ["rt-multi-thread"] }
reaper-low = "=0.1.0"
reaper-medium = "=0.1.0"
reaper-macros = "=0.1.0"
