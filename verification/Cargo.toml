[package]
name = "ts_bridge"
version = "0.1.0"
edition = "2021"
publish = false

[dependencies]
tree-sitter = "*"
streaming-iterator = "*"
tree-sitter-css = "*"
tree-sitter-elixir = "*"
tree-sitter-embedded-template = "*"
tree-sitter-erlang = "*"
tree-sitter-gleam = "*"
tree-sitter-html = "*"
tree-sitter-javascript = "*"
tree-sitter-sql = "*"
tree-sitter-typescript = "*"
rustler = "*"
thiserror = "*"
