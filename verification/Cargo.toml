[package]
name = "cmha"
version = "0.1.0"
edition = "2021"
publish = false

[dependencies]
slug = "=0.1.6"
chrono = "=0.4.45"
chrono-humanize = "=0.2.3"
rand = "=0.9.5"
hashbrown = "=0.15.5"
serde = { version = "=1.0.229", features = ["derive"] }
serde_json = "=1.0.154"
clap = { version = "=4.6.7", features = ["derive", "env"] }
const_format = "=0.2.37"
tokio = { version = "=1.54.1", features = ["rt-multi-thread", "macros", "sync", "time", "signal"] }
futures = "=0.3.34"
async-stream = "=0.3.6"
async-trait = "=0.1.92"
thiserror = "=2.0.21"
log = "=0.4.35"
bitflags = "=2.13.2"
rumqttc = { version = "0.24", default-features = false }
bollard = "0.19"
rustix = { version = "1", features = ["system"] }
shared_memory = "0.12"
raw_sync = "0.1"
