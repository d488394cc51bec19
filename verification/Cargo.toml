[package]
name = "runtime"
version = "0.1.0"
edition = "2021"
publish = false

[dependencies]
anyhow = "1"
rama = { version = "0.2", features = ["http"] }
tokio = { version = "1", features = ["macros", "rt-multi-thread", "time"] }
url = "2"
uuid = "1"
wasmtime = "33"
wasmtime-wasi = "33"
