[package]
name = "blkops"
version = "0.1.0"
edition = "2021"
publish = false

[dependencies]
anyhow = "1"
bytesize = "*"
clap = { version = "4", features = ["derive"] }
libc = "0.2"
thiserror = "*"
