[package]
name = "macrotis"
version = "0.1.0"
edition = "2021"
publish = false

[dependencies]
anstyle = "*"
anyhow = "*"
bytesize = "*"
clap = { version = "*", features = ["derive"] }
clap-serde-derive = "*"
confy = "*"
imagesize = "*"
serde = { version = "*", features = ["derive"] }
