[package]
name = "cuvs"
version = "26.6.0"
edition = "2021"
publish = false

[dependencies]
bon = "3"
ndarray = "0.17"
ordered-float = "5"
tch = { version = "0.24", default-features = false, features = ["doc-only"] }
thiserror = "2"
tinyvec = { version = "1", features = ["alloc"] }
