[package]
name = "sqlredact"
version = "0.1.0"
edition = "2021"
publish = false

[dependencies]
sqlparser = { version = "=0.55.0", features = ["visitor"] }
