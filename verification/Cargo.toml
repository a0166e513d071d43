[package]
name = "hbsubst"
version = "0.1.0"
edition = "2021"
publish = false

[dependencies]
anyhow = "*"
async-std = { version = "*", features = ["attributes"] }
clap = "*"
handlebars = "*"
num_cpus = "*"
serde = "*"
sysinfo = "*"
