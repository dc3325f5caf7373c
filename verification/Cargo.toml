[package]
name = "someip_helloworld"
version = "0.1.0"
edition = "2021"
publish = false

[dependencies]
someip_parse = "=0.6.2"
tokio = { version = "=1.53.2", features = ["rt", "rt-multi-thread", "net", "io-util", "time", "macros"] }
socket2 = "=0.6.5"
anyhow = "=1.0.104"
