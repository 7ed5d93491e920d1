[package]
name = "lkxvbot"
version = "0.1.0"
edition = "2021"
publish = false

[dependencies]
anyhow = "1"
futures-util = "0.3"
lazy_static = "1"
log = "0.4"
pretty_env_logger = "0.4"
tokio = { version = "1", features = ["macros", "rt", "time"] }
twilight-gateway = "0.8"
twilight-http = "0.8"
twilight-model = "0.8"
twilight-standby = "0.8"
