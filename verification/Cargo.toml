[package]
name = "ex_attr"
version = "0.1.0"
edition = "2021"
publish = false

[dependencies]
rustix = "*"
xattr = "*"
rustler = "*"

[dev-dependencies]
tempfile = "*"
