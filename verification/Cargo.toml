[package]
name = "meles"
version = "0.1.0"
edition = "2021"
publish = false

[dependencies]
libceed = "0.12.0"
mpi = "0.6.0"
