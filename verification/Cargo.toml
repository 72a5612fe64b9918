[package]
name = "wadatsumi"
version = "0.1.0"
edition = "2021"
publish = false

[dependencies]
bitintr = "0.3"
anyhow = "1"
thiserror = "1"
clap = { version = "4", features = ["derive"] }
sdl2 = "*"
