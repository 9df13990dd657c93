[package]
name = "anvil"
version = "0.1.0"
edition = "2021"
publish = false

[dependencies]
profiling = "=1.0.18"
smithay = { version = "=0.7.0", default-features = false, features = ["desktop", "wayland_frontend", "xwayland"] }
tracing = "=0.1.44"
wasmtime = { version = "=43.0.2", default-features = false, features = ["component-model", "cranelift", "runtime", "std"] }
wasmtime-wasi = { version = "=43.0.2", default-features = false, features = ["p2"] }
