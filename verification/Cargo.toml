[package]
name = "nvml_sensor"
version = "0.1.0"
edition = "2021"
publish = false

[dependencies]
nvml-wrapper = { version = "*", features = ["legacy-functions"] }
anyhow = "*"
clap = { version = "*", features = ["derive"] }
sysinfo = "*"
time = { version = "*", features = ["formatting", "local-offset"] }
