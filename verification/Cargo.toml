[package]
name = "alphacentauri"
version = "0.1.0"
edition = "2021"
publish = false

[dependencies]
serde = { version = "1", features = ["derive"] }
serde_json = "1"
portable-pty = "*"
sysinfo = "*"
kill_tree = { version = "*", features = ["tokio"] }
tokio = { version = "1", features = ["sync", "rt-multi-thread", "macros"] }
dir = "*"
dirs = "*"
