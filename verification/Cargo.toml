[package]
name = "mtag"
version = "0.1.0"
edition = "2021"
publish = false

[dependencies]
anyhow = "1"
clap = { version = "3", features = ["cargo"] }
mp4ameta = "0.11"
wild = "2"
