[package]
name = "no_window_prefix"
version = "0.1.0"
edition = "2021"
publish = false

[dependencies]
deno_ast = { version = "=0.53.3", features = ["scopes", "transforms"] }
