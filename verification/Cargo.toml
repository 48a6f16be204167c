[package]
name = "loadgen"
version = "0.1.0"
edition = "2021"
publish = false

[dependencies]
alloy = { version = "=2.5.0", default-features = false, features = ["providers", "provider-http", "reqwest", "rand"] }
async-channel = "=2.5.0"
num_cpus = "=1.17.0"
rand = "=0.10.3"
tokio = { version = "=1.53.2", default-features = false, features = ["rt-multi-thread", "time", "sync"] }
