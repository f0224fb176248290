[package]
name = "lua_bridge"
version = "0.1.0"
edition = "2021"
publish = false

[dependencies]
anyhow = "1"
clap = { version = "4", features = ["derive", "env"] }
dotenv = "0.15"
lazy_static = "1"
mlua = { version = "0.9", features = ["lua54", "vendored", "async"] }
r2d2 = "0.8"
r2d2_mysql = "24"
redis = { version = "0.23", features = ["r2d2"] }
tokio = { version = "1", features = ["full"] }
tracing = "0.1"
tracing-subscriber = { version = "0.3", features = ["env-filter"] }
