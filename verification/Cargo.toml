[package]
name = "cargo_run_wasm"
version = "0.1.0"
edition = "2021"
publish = false

[dependencies]
serde_json = "*"
pico-args = "*"
devserver_lib = "*"
wasm-bindgen-cli-support = "*"
