[package]
name = "naps"
version = "0.1.0"
edition = "2021"
publish = false

[dependencies]
clap = "=3.0.14"
crossbeam = "=0.8.5"
crossterm = "=0.22.1"
data-url = "=0.1.1"
deno_ast = { version = "0.53", features = ["transpiling"] }
nats = "0.24"
reqwest = { version = "=0.11.27", default-features = false, features = ["rustls-tls"] }
signal-hook = "=0.3.18"
tokio = { version = "=1.54.1", features = ["rt", "fs"] }
