[package]
name = "db_backup"
version = "0.1.0"
edition = "2021"
publish = false

[dependencies]
tokio = { version = "*", features = ["full"] }
tokio-postgres = "*"
tiberius = "*"
tokio-util = { version = "*", features = ["compat"] }
futures = "*"
colored = "*"
