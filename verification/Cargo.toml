[package]
name = "ajv_core"
version = "0.1.0"
edition = "2021"
publish = false

[dependencies]
jsonschema = "*"
serde_json = "*"
simd-json = "*"
mimalloc = "*"
