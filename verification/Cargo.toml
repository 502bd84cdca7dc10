[package]
name = "taskpool"
version = "0.1.0"
edition = "2021"
publish = false

[dependencies]
crossbeam = "*"
num_cpus = "*"
