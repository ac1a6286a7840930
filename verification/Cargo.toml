[package]
name = "ownable"
version = "0.1.0"
edition = "2021"
publish = false

[dependencies]
abstract-std = "=0.22.2"
cosmwasm-std = "=1.5.11"
cosmwasm-schema = "=1.5.11"
cw-storage-plus = "=1.2.0"
cw-utils = "=1.0.3"
cw-address-like = "=1.0.4"
cw-ownable-derive = "=0.5.1"
thiserror = "=1.0.69"
