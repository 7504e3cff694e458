[package]
name = "smol_thread_pool"
version = "0.1.0"
edition = "2021"
publish = false

[dependencies]
async-executor = "*"
async-io = "*"
event-listener = "*"
