[package]
name = "multicore"
version = "0.1.0"
edition = "2021"
publish = false

[dependencies]
crossbeam-channel = "*"
rayon = "*"
num_cpus = "*"
