[package]
name = "tldr_ast"
version = "0.1.0"
edition = "2021"
publish = false

[dependencies]
dunce = "1"
tree-sitter = "*"
tree-sitter-c = "*"
tree-sitter-c-sharp = "*"
tree-sitter-cpp = "*"
tree-sitter-elixir = "*"
tree-sitter-go = "*"
tree-sitter-java = "*"
tree-sitter-javascript = "*"
tree-sitter-kotlin-ng = "*"
tree-sitter-lua = "*"
tree-sitter-luau = "*"
tree-sitter-ocaml = "*"
tree-sitter-php = "*"
tree-sitter-python = "*"
tree-sitter-ruby = "*"
tree-sitter-rust = "*"
tree-sitter-scala = "*"
tree-sitter-swift = "*"
tree-sitter-typescript = "*"
