[package]
name = "select_binding"
version = "0.1.0"
edition = "2021"
publish = false

[dependencies]
sqlparser = "*"
heck = "*"
proc-macro2 = "*"
quote = "*"
syn = "*"
