[package]
name = "gecko"
version = "0.1.0"
edition = "2021"
publish = false

[dependencies]
pest = "=2.9.4"
pest_derive = "=2.9.4"
pest_consume = "=1.1.3"
colored = "=2.2.0"
cranelift = "0.88"
cranelift-codegen = "0.88"
