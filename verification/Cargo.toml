[package]
name = "fixture_io"
version = "0.1.0"
edition = "2021"
publish = false

[dependencies]
futures = "=0.1.31"
tokio-timer = "=0.1.2"
tokio-io = "=0.1.13"
