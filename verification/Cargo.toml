[package]
name = "tcp_relay"
version = "0.1.0"
edition = "2021"
publish = false

[dependencies]
futures-preview = "=0.3.0-alpha.18"
tokio = "=0.2.0-alpha.4"
tokio-io = "=0.2.0-alpha.4"
tokio-sync = "=0.2.0-alpha.4"
