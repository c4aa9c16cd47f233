[package]
name = "composer_core"
version = "0.1.0"
edition = "2021"
publish = false

[dependencies]
serde = { version = "1", features = ["derive"] }
serde_json = "1"
swc_core = { version = "*", default-features = false, features = ["ecma_ast", "ecma_visit", "common"] }
