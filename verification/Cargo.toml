[package]
name = "clean_dns"
version = "0.1.0"
edition = "2021"
publish = false

[dependencies]
futures = "0.3"
getopts = "0.2"
libc = "0.2"
redbpf = { version = "=2.3.0", features = ["load"] }
tokio = { version = "1", features = ["rt", "signal"] }
