[package]
name = "cce_files"
version = "0.1.0"
edition = "2021"
publish = false

[dependencies]
chrono = { version = "=0.4.45", default-features = false, features = ["clock", "std"] }
kdl = "=6.7.1"
image = { version = "=0.25.10", default-features = false, features = ["png", "jpeg", "gif", "webp", "bmp", "ico"] }
tokio = { version = "=1.54.1", features = ["rt-multi-thread", "sync", "macros", "time"] }
calloop = "=0.14.5"
log = "=0.4.35"
notify = "*"
