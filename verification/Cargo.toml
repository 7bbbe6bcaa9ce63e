[package]
name = "svelte_extension"
version = "0.1.0"
edition = "2021"
publish = false

[dependencies]
which = "*"
zed_extension_api = "*"
