[package]
name = "lazymc"
version = "0.2.11"
edition = "2021"
publish = false

[dependencies]
flate2 = "1"
md-5 = "0.10"
proxy-protocol = "0.5"
version-compare = "0.1"
shlex = "1"
base64 = "0.21"
tokio = { version = "1", features = ["full"] }
bytes = "1"
futures = "0.3"
clap = { version = "4", features = ["cargo"] }
serde = { version = "1", features = ["derive"] }
serde_json = "1"
toml = "0.5"
log = "0.4"
pretty_env_logger = "0.4"
dotenv = "0.15"
anyhow = "1"
rand = "0.8"
libc = "0.2"
notify = "4"
minecraft-protocol = "*"
quartz_nbt = "*"
named-binary-tag = "*"
rcon = "*"
uuid = "1"
