[package]
name = "file_asset_io"
version = "0.1.0"
edition = "2021"
publish = false

[dependencies]
async-fs = "*"
async-lock = "*"
event-listener = "*"
futures-io = "*"
futures-lite = "*"
