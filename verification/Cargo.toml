[package]
name = "mopro_bindings"
version = "0.1.0"
edition = "2021"
publish = false

[dependencies]
mopro-ffi = "=0.2.0"
thiserror = "2.0.12"
uniffi = "=0.29.0"
