[package]
name = "perf_sampler"
version = "0.1.0"
edition = "2021"
publish = false

[dependencies]
failure = "=0.1.8"
perfcnt = "=0.8.0"
time = "=0.1.45"
