[package]
name = "starling"
version = "0.1.0"
edition = "2021"
publish = false

[dependencies]
num_cpus = "1"
futures = "0.1"
futures-cpupool = "0.1"
tokio-core = "0.1"
tokio-timer = "0.1"
clap = "2"
lazy_static = "1"
void = "1"
