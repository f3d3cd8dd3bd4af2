[package]
name = "wetter"
version = "0.1.0"
edition = "2021"
publish = false

[dependencies]
flate2 = "*"
bzip2 = "*"
xz2 = "*"
tar = "*"
flume = "*"
libc = "*"
reqwest = { version = "*", default-features = false, features = ["blocking"] }
