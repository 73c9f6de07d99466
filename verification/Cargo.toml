[package]
name = "stackerdb_config"
version = "0.1.0"
edition = "2021"
publish = false

[dependencies]
clarity-vm = { version = "=2.3.0", default-features = false, features = ["wasm"] }
lazy_static = "=1.5.1"
slog = "=2.8.2"
stacks-common = { version = "=0.0.3", default-features = false, features = ["wasm", "log"] }
