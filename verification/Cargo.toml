[package]
name = "remote_hosts"
version = "0.1.0"
edition = "2021"
publish = false

[dependencies]
uuid = { version = "=1.29.0", features = ["v4"] }
getrandom = "=0.4.3"
dirs = "=5.0.1"
rusqlite = { version = "=0.31.0", features = ["bundled"] }
ssh2 = "=0.9.6"
serde = { version = "=1.0.229", features = ["derive"] }
