[package]
name = "ockam_ebpf"
version = "0.1.0"
edition = "2021"
publish = false

[dependencies]
aya-ebpf = "=0.1.1"
network-types = "=0.0.8"
