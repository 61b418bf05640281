[package]
name = "dioxus_code"
version = "0.1.0"
edition = "2021"
publish = false

[dependencies]
arborium = { version = "=2.18.2", features = ["lang-rust", "lang-python"] }
arborium-theme = "=2.18.2"
arborium-tree-sitter = "=2.18.2"
betlang = "=0.1.1"
syn = { version = "=2.0.119", features = ["full"] }
proc-macro2 = "=1.0.107"
quote = "=1.0.47"
dioxus = { version = "*", default-features = false, features = ["macro", "html", "hooks", "signals"] }
