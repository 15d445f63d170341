[package]
name = "jsonrpc_http_server"
version = "0.1.0"
edition = "2021"
publish = false

[dependencies]
hyper = "0.10"
jsonrpc-core = "18"
unicase = "1"
