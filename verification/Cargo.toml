[package]
name = "metime_core"
version = "0.1.0"
edition = "2021"
publish = false

[dependencies]
chrono = "=0.4.45"
uuid = { version = "=1.29.0", features = ["v4"] }
clap = { version = "=4.6.7", features = ["derive"] }
clap-repl = "=0.3.2"
derive_more = { version = "=2.1.1", features = ["display"] }
