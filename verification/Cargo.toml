[package]
name = "statime"
version = "0.1.0"
edition = "2021"
publish = false

[dependencies]
atomic_refcell = "0.1"
log = "0.4"
rand = "0.8"

[dev-dependencies]
fixed = "1"
