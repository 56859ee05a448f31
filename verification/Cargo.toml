[package]
name = "mach_backend"
version = "0.1.0"
edition = "2021"
publish = false

[dependencies]
fern = "0.6"
futures = "0.3"
hyper = { version = "0.14", features = ["full"] }
log = "0.4"
serde = "1"
serde_derive = "1"
serde_json = "1"
snafu = "0.7"
tokio = { version = "1", features = ["full"] }
