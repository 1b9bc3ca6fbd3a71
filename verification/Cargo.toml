[package]
name = "prover"
version = "0.1.0"
edition = "2021"
publish = false

[dependencies]
anyhow = "1"
num_cpus = "1"
rand = "0.8"
rayon = "1"
tokio = { version = "1", features = ["rt", "rt-multi-thread", "sync", "time"] }
