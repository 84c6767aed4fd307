[package]
name = "vertex_layout"
version = "0.1.0"
edition = "2021"
publish = false

[dependencies]
byteorder = "=1.5.0"
fasthash = "=0.4.0"
image = { version = "=0.24.9", default-features = false, features = ["png"] }
num = "0.4"
proc-macro2 = "=1.0.107"
quote = "=1.0.47"
syn = { version = "=1.0.109", features = ["full", "extra-traits"] }
thiserror = "=1.0.69"
