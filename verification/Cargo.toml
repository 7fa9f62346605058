[package]
name = "rs_fstat2json"
version = "0.1.0"
edition = "2021"
publish = false

[dependencies]
serde_json = "1"
time = { version = "0.3", features = ["formatting", "parsing"] }
