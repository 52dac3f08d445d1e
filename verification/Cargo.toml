[package]
name = "llm_bench_core"
version = "0.1.0"
edition = "2021"
publish = false

[dependencies]
anyhow = "1"
fake = "2"
humantime = "2"
log = "0.4"
num_cpus = "1"
rand = "0.8"
rand_distr = "0.4"
serde = { version = "1", features = ["derive"] }
toml = "0.8"
