[package]
name = "dirac"
version = "0.1.0"
edition = "2021"
publish = false

[dependencies]
which = "*"
serde_json = "*"
tokio = { version = "*", features = ["rt-multi-thread", "macros", "process", "signal", "sync", "time", "io-util"] }
reqwest = { version = "*", default-features = false, features = ["json"] }
rustyline = "*"
colored = "*"
libc = "*"
clap = { version = "*", features = ["derive"] }
