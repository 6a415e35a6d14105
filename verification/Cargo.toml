[package]
name = "futurecop_mod"
version = "0.1.0"
edition = "2021"
publish = false

[dependencies]
mlua = { version = "0.9", features = ["luau", "unstable", "serialize"] }
regex = "1"
serde = { version = "1", features = ["derive"] }
serde_json = "1"
toml = "0.8"
log = "0.4"
anyhow = "1"
walkdir = "2"
tokio = { version = "1", features = ["rt-multi-thread", "fs", "io-util", "sync", "macros", "time"] }
axum = { version = "0.6", features = ["ws"] }
futures = "0.3"
tokio-util = { version = "0.7", features = ["io"] }
zip = { version = "0.6", default-features = false, features = ["deflate"] }
rand = "0.8"
humantime = "2"
fern = "0.6"
lazy_static = "1"
