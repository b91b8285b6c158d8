[package]
name = "getset2"
version = "0.1.0"
edition = "2021"
publish = false

[dependencies]
merge = { version = "0.1", default-features = false }
proc-macro-error = "1"
proc-macro2 = "1"
quote = "1"
structmeta = "0.3"
syn = { version = "2", features = ["full", "extra-traits"] }
