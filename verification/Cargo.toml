[package]
name = "dictbench"
version = "0.1.0"
edition = "2021"
publish = false

[dependencies]
zstd = "*"
bitcoin = "*"
bitcoincore-rpc = "*"
zmq = "*"
influent = "*"
futures = "0.1"
clap = "*"
log = "*"
env_logger = "*"
bitcoin_hashes = "*"
