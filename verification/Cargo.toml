[package]
name = "clone_cw_multi_test"
version = "0.1.0"
edition = "2021"
publish = false

[dependencies]
sha3 = "0.10"
serde_json = "1"
anyhow = "1"
cosmwasm-std = "2"
cosmwasm-schema = "2"
cw20-ics20 = "2"
cosmwasm-vm = "~2.1"
wasmer = "~4.3"
tonic = "*"
async-std = "1"
