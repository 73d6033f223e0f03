[package]
name = "mmap_region"
version = "0.1.0"
edition = "2021"
publish = false

[dependencies]
memmap2 = "0.9"
libc = "0.2"

[dev-dependencies]
rustix = { version = "1", features = ["fs"] }
