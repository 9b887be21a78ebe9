[package]
name = "yahps"
version = "0.1.0"
edition = "2021"
publish = false

[dependencies]
bytes = "1"
byteorder = "1"
tokio = { version = "1", features = ["rt-multi-thread", "macros", "net", "io-util", "sync", "time"] }
async-channel = "2"
async-trait = "0.1"
clap = { version = "4", features = ["derive"] }
dashmap = "6"
env_logger = "0.11"
log = "0.4"
num_cpus = "1"
num_enum = "0.7"
parking_lot = "0.12"
