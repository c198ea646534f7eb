[package]
name = "databend_ops"
version = "0.1.0"
edition = "2021"
publish = false

[dependencies]
anyhow = "1"
async-backtrace = "0.2"
async-trait = "0.1"
chrono = "0.4"
tracing = "0.1"
