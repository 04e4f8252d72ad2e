[package]
name = "flutter_assets_tool"
version = "0.1.0"
edition = "2021"
publish = false

[dependencies]
anyhow = "1"
async-recursion = "1"
chrono = "0.4"
clap = { version = "4", features = ["derive"] }
clap_complete = "4"
dotenvy = "0.15"
env_logger = "*"
fs_extra = "1"
futures-util = "0.3"
log = "0.4"
recase = "*"
regex = "1"
serde = { version = "1", features = ["derive"] }
serde_yml = "*"
thiserror = "*"
tokio = { version = "1", features = ["full"] }
