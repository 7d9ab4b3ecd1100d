[package]
name = "vpn_connector"
version = "0.1.0"
edition = "2021"
publish = false

[dependencies]
actix = "0.13"
actix-codec = "0.5"
actix-rt = "2"
awc = { version = "3", default-features = false }
bytes = "1"
env_logger = "0.10"
futures = "0.3"
futures-util = "0.3"
log = "0.4"
network-interface = "1"
rand = "0.8"
structopt = "0.3"
tokio = { version = "1", features = ["time"] }
tokio-util = { version = "0.7", features = ["codec"] }
tun = { version = "0.5", features = ["async"] }
