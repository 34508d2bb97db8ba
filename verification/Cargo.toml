[package]
name = "consistency_harness"
version = "0.1.0"
edition = "2021"
publish = false

[dependencies]
futures-util = "*"
sqlx = { version = "*", default-features = false, features = ["sqlite", "runtime-tokio"] }
tempfile = "*"
tokio = { version = "*", default-features = false, features = ["macros", "rt", "fs"] }
