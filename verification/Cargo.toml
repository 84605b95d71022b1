[package]
name = "ft_lib"
version = "0.1.0"
edition = "2021"
publish = false

[dependencies]
anyhow = "1"
arrayvec = "0.7"
clap = { version = "4", features = ["derive"] }
elliptic-curve = "0.13"
log = "0.4"
p256 = "0.13"
