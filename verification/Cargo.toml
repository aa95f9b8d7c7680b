[package]
name = "web_server"
version = "0.1.0"
edition = "2021"
publish = false

[dependencies]
http = "1"
tokio = { version = "1", features = ["rt-multi-thread", "macros", "net", "io-util", "fs"] }
async-trait = "0.1"
