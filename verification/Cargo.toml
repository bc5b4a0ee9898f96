[package]
name = "cql_bridge"
version = "0.1.0"
edition = "2021"
publish = false

[dependencies]
scylla = "=1.9.0"
tokio = { version = "=1.53.2", features = ["rt-multi-thread"] }
futures = "*"
