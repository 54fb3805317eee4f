[package]
name = "agent_workflow"
version = "0.1.0"
edition = "2021"
publish = false

[dependencies]
async-trait = "0.1"
chrono = { version = "0.4", features = ["serde"] }
clap = { version = "4", features = ["derive"] }
futures = "0.3"
glob = "0.3"
image = { version = "0.25", default-features = false, features = ["jpeg", "png", "webp"] }
indicatif = "0.17"
oxipng = { version = "9", default-features = false, features = ["parallel", "zopfli", "filetime"] }
rayon = "1"
serde = { version = "1", features = ["derive"] }
serde_json = "1"
sysinfo = "0.30"
thiserror = "1"
tokio = { version = "1", features = ["full"] }
toml = "0.8"
tracing = "0.1"
tracing-subscriber = "0.3"
uuid = { version = "1", features = ["v4", "serde"] }
walkdir = "2"
walrus_rs = "*"
