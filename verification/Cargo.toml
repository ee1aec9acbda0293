[package]
name = "bpfx"
version = "0.1.0"
edition = "2021"
publish = false

[dependencies]
aya = "0.13"
aya-ebpf = "0.1"
aya-ebpf-macros = "0.1"
futures = "0.3"
log = "0.4"
rkyv = "0.8"
thiserror = "2"
tokio = { version = "1", features = ["macros", "rt-multi-thread", "sync"] }
