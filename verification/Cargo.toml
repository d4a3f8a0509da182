[package]
name = "worktrunk_native"
version = "0.1.0"
edition = "2021"
publish = false

[dependencies]
git2 = { version = "*", default-features = false }
fs-err = "*"

[dev-dependencies]
tempfile = "*"
