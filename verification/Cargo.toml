[package]
name = "rpc_stream"
version = "0.1.0"
edition = "2021"
publish = false

[dependencies]
futures = "0.3"
hyper = { version = "0.13", default-features = false }
tokio = { version = "0.2", default-features = false }
