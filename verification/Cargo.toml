[package]
name = "seraph_core"
version = "0.1.0"
edition = "2021"
publish = false

[dependencies]
serde_json = "*"
unescape = "*"
uuid = { version = "*", features = ["v4"] }
chrono = "*"
sea-orm = { version = "*", features = ["sqlx-postgres", "runtime-tokio-rustls", "macros"] }
bollard = "*"
tokio = { version = "*", features = ["full"] }
tokio-tar = "*"
tokio-util = { version = "*", features = ["io"] }
futures-util = "*"
tempfile = "*"
dotenvy = "*"
