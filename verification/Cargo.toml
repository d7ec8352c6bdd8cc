[package]
name = "dpsa4fl-janus-tasks"
version = "0.1.0"
edition = "2021"
publish = false

[dependencies]
anyhow = "=1.0.104"
base64 = "=0.22.1"
clap = { version = "=4.6.7", features = ["derive"] }
fixed = { version = "=1.31.0", features = ["serde"] }
http = "=1.5.0"
janus_collector = "=0.7.145"
janus_core = "=0.7.145"
janus_messages = "=0.7.145"
num-traits = "=0.2.19"
prio = "=0.16.8"
rand = "=0.8.8"
reqwest = { version = "=0.12.28", default-features = false, features = ["json", "rustls-tls"] }
serde = { version = "=1.0.229", features = ["derive"] }
serde_json = "=1.0.154"
tokio = { version = "=1.54.1", features = ["full"] }
tracing = "=0.1.44"
url = "=2.5.8"
warp = "=0.3.7"
