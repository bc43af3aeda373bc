[package]
name = "pkgid"
version = "0.1.0"
edition = "2021"
publish = false

[dependencies]
anyhow = "1"
semver = "1"
serde = "1"
unicode-xid = "0.2"
url = "2"
