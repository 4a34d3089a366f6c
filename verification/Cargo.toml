[package]
name = "graders"
version = "0.1.0"
edition = "2021"
publish = false

[dependencies]
clap = { version = "4", features = ["derive", "cargo"] }
env_logger = "*"
eyre = "0.6"
futures = "0.3"
git2 = "*"
http-body-util = "0.1"
hyper = { version = "1", features = ["full"] }
hyper-tls = "*"
hyper-util = { version = "0.1", features = ["full"] }
is_executable = "1"
lapin = "2"
log = "0.4"
reqwest = "*"
serde = { version = "1", features = ["derive"] }
serde_json = "1"
serde_yaml = "0.9"
tempfile = "3"
thiserror = "*"
tokio = { version = "1", features = ["full"] }
url = { version = "2", features = ["serde"] }
uuid = { version = "1", features = ["v4"] }
zip = { version = "*", default-features = false, features = ["deflate"] }
