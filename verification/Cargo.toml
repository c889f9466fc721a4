[package]
name = "docparse"
version = "0.1.0"
edition = "2021"
publish = false

[dependencies]
flate2 = "1"
pulldown-cmark = { version = "=0.13.6", default-features = false }
pulldown-cmark-to-cmark = "=23.0.0"
sha2 = "=0.10.9"
hex = "=0.4.3"
