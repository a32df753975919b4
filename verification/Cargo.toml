[package]
name = "xabe-cuda"
version = "0.1.0"
edition = "2021"
publish = false

[dependencies]
cudarc = { version = "0.19", default-features = false, features = ["std", "driver", "nvrtc", "cublaslt", "f16", "cuda-12080", "dynamic-loading"] }
half = "2"
tracing = "0.1"
