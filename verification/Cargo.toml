[package]
name = "occupier_r"
version = "0.1.0"
edition = "2021"
publish = false

[dependencies]
systemstat = "0.2"
clap = "3"
tokio = { version = "1", features = ["rt-multi-thread", "macros", "time"] }
futures = "0.3"
vmm-sys-util = "*"
