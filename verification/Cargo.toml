[package]
name = "horned_oxi"
version = "0.1.0"
edition = "2021"
publish = false

[dependencies]
horned-owl = "=1.4.0"
oxigraph = { version = "=0.5.13", default-features = false }
