[package]
name = "threemf2"
version = "0.1.0"
edition = "2021"
publish = false

[dependencies]
zip = { version = "=9.2.2", default-features = false, features = ["deflate"] }
instant-xml = "=0.7.7"
euc = "=0.5.3"
vek = "=0.15.10"
image = { version = "=0.25.10", default-features = false, features = ["png"] }
lexical-core = "*"
