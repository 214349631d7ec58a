[package]
name = "tari_universe"
version = "0.1.0"
edition = "2021"
publish = false

[dependencies]
anyhow = "=1.0.104"
async-trait = "=0.1.92"
dirs = "=5.0.1"
log = "=0.4.34"
rand = "0.8"
regex = "=1.13.1"
serde = { version = "=1.0.229", features = ["derive"] }
serde_json = "=1.0.154"
sys-locale = "=0.3.2"
tari_common = "=6.2.0"
tokio = { version = "=1.54.1", features = ["fs"] }
