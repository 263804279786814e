[package]
name = "blocking_client"
version = "0.1.0"
edition = "2021"
publish = false

[dependencies]
futures-core = { version = "0.3", default-features = false, features = ["std"] }
futures-util = { version = "0.3", default-features = false, features = ["std"] }
http = "0.2"
log = "0.4"
tokio = { version = "0.2", default-features = false, features = ["sync", "rt-core"] }
