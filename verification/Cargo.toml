[package]
name = "proxy_router"
version = "0.1.0"
edition = "2021"
publish = false

[dependencies]
url = "2"
fast-socks5 = "*"
async-http-proxy = { version = "*", features = ["runtime-tokio", "basic-auth"] }
tokio = { version = "1", features = ["net", "time", "rt", "io-util"] }
log = "0.4"
thiserror = "*"
