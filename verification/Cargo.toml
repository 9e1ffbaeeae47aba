[package]
name = "guest_harness"
version = "0.1.0"
edition = "2021"
publish = false

[dependencies]
libafl = "0.15"
libafl_bolts = "0.15"
libafl_qemu = "0.15"
log = "0.4"
serde = { version = "1", features = ["derive"] }
