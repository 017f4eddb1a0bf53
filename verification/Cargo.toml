[package]
name = "uds_throughput"
version = "0.1.0"
edition = "2021"
publish = false

[dependencies]
byte-unit = "*"
clap = "*"
ctrlc = "*"
epoll = "*"
log = "*"
