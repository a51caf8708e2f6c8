[package]
name = "crab_launcher"
version = "0.1.0"
edition = "2021"
publish = false

[dependencies]
gtk4 = "0.4"
once_cell = "1"
serde = { version = "1", features = ["derive"] }
serde_yaml = "0.8"
serde_json = "1"
dirs = "4"
sysinfo = "0.26"
rspotify = { version = "0.11", features = ["cli"] }
tokio = { version = "1", features = ["full"] }
google-youtube3 = "4"
hyper = "0.14"
hyper-rustls = { version = "0.23", features = ["http2"] }
futures = "0.3"
async-trait = "0.1"
dotenv_codegen = "0.15"
async-process = "1"
