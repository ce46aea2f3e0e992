[package]
name = "get_huawei_market"
version = "0.1.0"
edition = "2021"
publish = false

[dependencies]
rust_decimal = "*"
uuid = { version = "*", features = ["v4"] }
serde = { version = "*", features = ["derive"] }
serde_json = "*"
tokio = { version = "*", features = ["rt-multi-thread", "macros", "time", "sync"] }
reqwest = { version = "*", default-features = false, features = ["json"] }
toml = "*"
anyhow = "*"
