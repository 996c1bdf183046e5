[package]
name = "roadrunner"
version = "0.1.0"
edition = "2021"
publish = false

[dependencies]
anyhow = "*"
chrono = "*"
libc = "*"
log = "*"
oci-spec = "*"
walkdir = "*"
regex = "*"
itertools = "*"
wasmprinter = "*"
wasmedge-sdk = "*"
tokio = { version = "*", features = ["rt", "macros"] }
