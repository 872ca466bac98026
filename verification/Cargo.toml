[package]
name = "promql_ast"
version = "0.1.0"
edition = "2021"
publish = false

[dependencies]
chrono = { version = "0.4", default-features = false, features = ["std"] }
promql-parser = "0.4"
pyo3 = { version = "0.23", features = ["chrono"] }
