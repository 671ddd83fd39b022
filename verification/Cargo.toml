[package]
name = "runjs"
version = "0.1.0"
edition = "2021"
publish = false

[dependencies]
deno_ast = { version = "*", features = ["transpiling"] }
deno_core = "*"
tokio = { version = "*", features = ["rt", "sync"] }
url = "*"
