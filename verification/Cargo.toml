[package]
name = "vgraph"
version = "0.1.0"
edition = "2021"
publish = false

[dependencies]
atty = "0.2"
clap = "2"
getopts = "0.2"
