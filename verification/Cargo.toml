[package]
name = "rusty_tags"
version = "0.1.0"
edition = "2021"
publish = false

[dependencies]
clap = "*"
lazy_static = "*"
num_cpus = "*"
scoped_threadpool = "*"
scopeguard = "*"
serde = "*"
serde_derive = "*"
serde_json = "*"
tempfile = "*"
toml = "*"
