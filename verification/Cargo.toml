[package]
name = "monitr"
version = "0.1.0"
edition = "2021"
publish = false

[dependencies]
rusqlite = { version = "=0.40.2", features = ["bundled", "fallible_uint"] }
chrono = "=0.4.45"
sysinfo = "=0.39.6"
clap = "=4.6.7"
home = "=0.5.12"
serde_json = "=1.0.151"
