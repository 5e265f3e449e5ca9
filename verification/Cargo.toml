[package]
name = "lkbc_autosplitter"
version = "0.1.0"
edition = "2021"
publish = false

[dependencies]
bytemuck = "=1.25.2"
dlmalloc = { version = "=0.2.14", features = ["global"] }
