[package]
name = "virtio_gpu"
version = "0.1.0"
edition = "2021"
publish = false

[dependencies]
libc = "0.2"
rutabaga_gfx = "0.1"
vm-memory = { version = "=0.5.0", features = ["backend-mmap"] }
