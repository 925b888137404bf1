[package]
name = "proxy_tunnel"
version = "0.1.0"
edition = "2021"
publish = false

[dependencies]
httparse = "*"
mio = { version = "*", features = ["net", "os-poll"] }
url = "*"
