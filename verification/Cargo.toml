[package]
name = "oxr_sync"
version = "0.1.0"
edition = "2021"
publish = false

[dependencies]
openxr = { version = "*", default-features = false }
