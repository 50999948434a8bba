[package]
name = "ab_versions"
version = "0.1.0"
edition = "2021"
publish = false

[dependencies]
cfb = "0.7"
rayon = "1"
thiserror = "1"
