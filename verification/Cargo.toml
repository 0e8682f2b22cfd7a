[package]
name = "kstring2"
version = "0.1.0"
edition = "2021"
publish = false

[dependencies]
serde = "1"
quote = "1"
proc-macro2 = "1"
diesel = { version = "2", default-features = false }
