[package]
name = "markdown"
version = "0.1.0"
edition = "2021"
publish = false

[dependencies]
crook_plugin_api = "0.8"
