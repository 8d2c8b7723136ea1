[package]
name = "qspi"
version = "0.1.0"
edition = "2021"
publish = false

[dependencies]
anyhow = "1"
parse_int = "0.4.0"
structopt = "0.3"
