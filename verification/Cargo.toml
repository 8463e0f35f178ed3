[package]
name = "wcp"
version = "0.1.0"
edition = "2021"
publish = false

[dependencies]
http_io = "=0.2.18"
indicatif = "=0.15.0"
structopt = "=0.3.26"

[dev-dependencies]
tempfile = "=3.27.0"
