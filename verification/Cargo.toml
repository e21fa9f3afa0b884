[package]
name = "lan_play"
version = "0.1.0"
edition = "2021"
publish = false

[dependencies]
smoltcp = "0.6"
lru = "0.6"
dns-parser = "0.8"
base64 = "0.13"
url = "2"
tokio = { version = "1", features = ["rt-multi-thread", "macros", "net", "time", "sync", "io-util"] }
futures = "0.3"
async-channel = "1"
async-trait = "0.1"
async-socks5 = "*"
log = "0.4"
env_logger = "*"
structopt = "0.3"
thiserror = "1"
lazy_static = "1"
dotenv = "0.15"
cfg-if = "1"
nix = "*"
libc = "0.2"
errno = "*"
pin-project-lite = "0.2"
drop-abort = "*"
async-timeout = "*"
