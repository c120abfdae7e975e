[package]
name = "waterfall"
version = "0.1.0"
edition = "2021"
publish = false

[dependencies]
anyhow = "1"
base64 = "0.22"
curl = "*"
futures = "0.3"
glob = "0.3"
ipnetwork = "*"
iprobe = "*"
libc = "0.2"
log = "0.4"
notify = "*"
pretty_env_logger = "*"
quick-xml = { version = "*", features = ["serialize"] }
rusdig = "*"
serde = { version = "1", features = ["derive"] }
tokio = { version = "1", features = ["full"] }
