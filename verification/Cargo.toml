[package]
name = "egress_proxy"
version = "0.1.0"
edition = "2021"
publish = false

[dependencies]
actix-http = "=0.2.11"
actix-service = "=0.4.2"
actix-web = { version = "=1.0.9", default-features = false, features = ["client"] }
async-log = "=1.1.0"
# Held at the last release whose Duration is that of time 0.1, which
# actix-http 0.2 subtracts from a time::Tm. Nothing here calls it.
chrono = "=0.4.19"
clap = "=2.34.0"
env_logger = "=0.6.2"
futures = "=0.1.31"
listenfd = "=0.3.5"
log = "=0.4.34"
prometheus = "=0.7.0"
stopwatch = "=0.0.7"
url = "=1.7.2"
