[package]
name = "rpc"
version = "0.1.0"
edition = "2021"
publish = false

[dependencies]
serde = { version = "1", features = ["derive"] }
serde_json = { version = "1", features = ["raw_value"] }
hyper = { version = "1", features = ["server", "http1"] }
http-body-util = "0.1"
futures = "0.3"
tokio = { version = "1", features = ["time", "rt", "macros", "net"] }
tower = "0.4"
tracing = "0.1"
epee-encoding = "*"
hyper-util = { version = "0.1", features = ["tokio"] }
