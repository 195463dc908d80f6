[package]
name = "shifting_ghost"
version = "0.1.0"
edition = "2021"
publish = false

[dependencies]
anyhow = "1"
arrayvec = "0.7"
aya = "0.13"
aya-ebpf = "0.1"
aya-log = "0.2"
caps = "0.5"
core_affinity = "0.8"
crossbeam-channel = "0.5"
env_logger = "0.11"
log = "0.4"
static_assertions = "1.1"
thiserror = "2"
tokio = { version = "1", features = ["macros", "rt-multi-thread", "signal", "sync"] }
