[package]
name = "pesqlite"
version = "0.1.0"
edition = "2021"
publish = false

[dependencies]
pest = "=2.9.4"
pest_meta = "=2.9.4"
pest_vm = "=2.9.4"
