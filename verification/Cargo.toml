[package]
name = "vectorlink-task"
version = "0.1.0"
edition = "2021"
publish = false

[dependencies]
serde_json = "=1.0.154"
serde = { version = "=1.0.229", features = ["derive"] }
etcd-client = "=0.8.4"
tokio = { version = "=1.54.1", features = ["rt-multi-thread", "macros", "time", "sync"] }
tokio-stream = "=0.1.19"
futures = "=0.3.34"
clap = { version = "=4.6.7", features = ["derive"] }
thiserror = "=1.0.69"
