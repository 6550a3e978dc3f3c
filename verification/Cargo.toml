[package]
name = "proxypal"
version = "0.1.0"
edition = "2021"
publish = false

[dependencies]
uuid = { version = "*", features = ["v4"] }
dirs = "*"
env_proxy = "*"
sysproxy = "*"
url = "*"

[dev-dependencies]
serde_json = "*"
