[package]
name = "zipstream"
version = "0.1.0"
edition = "2021"
publish = false

[dependencies]
crc32fast = "1"
chrono = "0.4"
tokio = { version = "1", features = ["io-util", "rt"] }
async-compression = { version = "0.4", features = ["tokio", "deflate", "bzip2", "lzma", "xz", "zstd"] }
