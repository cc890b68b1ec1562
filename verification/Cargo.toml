[package]
name = "jit_runtime"
version = "0.1.0"
edition = "2021"
publish = false

[dependencies]
either = "1"
inkwell = { version = "0.5.0", features = ["llvm18-0"] }
tokio = { version = "1", features = ["rt", "rt-multi-thread", "sync"] }
