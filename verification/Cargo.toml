[package]
name = "vmm_bridge"
version = "0.1.0"
edition = "2021"
publish = false

[dependencies]
anyhow = "*"
env_logger = "*"
libc = "*"
log = "*"
vmm-sys-util = "*"
