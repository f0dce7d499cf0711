[package]
name = "rts_simulation"
version = "0.1.0"
edition = "2021"
publish = false

[dependencies]
crossbeam = "0.8"
crossbeam-queue = "0.3"
dashmap = "6"
parking_lot = "0.12"
rand = "0.9"
spin_sleep = "1"
log = "0.4"
env_logger = "0.11"
core_affinity = "0.8"
thread-priority = "*"
pidgeon = "*"
csv = "1"
serde = { version = "1", features = ["derive"] }
