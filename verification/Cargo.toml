[package]
name = "echo"
version = "0.1.0"
edition = "2021"
publish = false

[dependencies]
rand = "=0.8.8"
regex = "=1.13.1"
serenity = { version = "=0.11.7", default-features = false, features = ["builder", "cache", "client", "framework", "gateway", "http", "model", "standard_framework", "utils", "rustls_backend"] }
songbird = { version = "0.3", features = ["builtin-queue"] }
tokio = { version = "=1.54.1", features = ["macros", "rt-multi-thread", "process"] }
tracing = "=0.1.44"
