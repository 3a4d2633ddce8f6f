[package]
name = "nextgen2"
version = "0.1.0"
edition = "2021"
publish = false

[dependencies]
crossbeam = "=0.4.1"
mio = "=0.6.23"
unix-named-pipe = "*"
serde = "1"
serde_json = "1"
