[package]
name = "facetime_ids_quic"
version = "0.1.0"
edition = "2021"
publish = false

[dependencies]
plist = "1"
thiserror = "2"
async-trait = "0.1"
