[package]
name = "vk_helpers"
version = "0.1.0"
edition = "2021"
publish = false

[dependencies]
anyhow = "*"
ash = "*"
gpu-allocator = "*"
log = "*"
vk-sync-fork = "*"
