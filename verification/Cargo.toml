[package]
name = "socks_client"
version = "0.1.0"
edition = "2021"
publish = false

[dependencies]
tokio = { version = "1", features = ["net", "io-util", "time"] }
async-trait = "0.1"
webpki = "0.22"

[dev-dependencies]
byteorder = "1"
