[package]
name = "code_search"
version = "0.1.0"
edition = "2021"
publish = false

[dependencies]
tree-sitter = "*"
tree-sitter-rust = "*"
tree-sitter-java = "*"
tree-sitter-python = "*"
tree-sitter-javascript = "*"
tree-sitter-c = "*"
tree-sitter-cpp = "*"
tree-sitter-go = "*"
tree-sitter-c-sharp = "*"
regex = "*"
clap = "*"
colored = "*"
indicatif = "*"
prettytable-rs = "*"
rustyline = "*"
