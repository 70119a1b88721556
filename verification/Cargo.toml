[package]
name = "ecat_decode"
version = "0.1.0"
edition = "2021"
publish = false

[dependencies]
clap = { version = "=4.6.7", features = ["derive"] }
pcap-parser = { version = "=0.17.0", features = ["data"] }
