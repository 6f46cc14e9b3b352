[package]
name = "proc_hunter"
version = "0.1.0"
edition = "2021"
publish = false

[dependencies]
sysinfo = "*"
battery = "*"
clap = { version = "*", features = ["derive"] }
