[package]
name = "gzip_header"
version = "0.1.0"
edition = "2021"
publish = false

[dependencies]
libz-sys = "=1.1.30"

[dev-dependencies]
flate2 = { version = "=1.1.10", default-features = false, features = ["zlib"] }
