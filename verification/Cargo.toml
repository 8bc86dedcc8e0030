[package]
name = "vector_search"
version = "0.1.0"
edition = "2021"
publish = false

[dependencies]
anyhow = "=1.0.104"
cudarc = { version = "=0.11.9", default-features = false, features = ["std", "driver", "cuda-12020"] }
