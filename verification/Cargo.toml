[package]
name = "codopsy"
version = "0.1.0"
edition = "2021"
publish = false

[dependencies]
tree-sitter = "=0.25.10"
tree-sitter-javascript = "=0.25.0"
tree-sitter-typescript = "=0.23.2"
tree-sitter-rust = "=0.24.2"
tree-sitter-go = "=0.25.0"
tree-sitter-python = "=0.25.0"
tree-sitter-c = "=0.24.2"
tree-sitter-cpp = "=0.23.4"
tree-sitter-java = "=0.23.5"
tree-sitter-ruby = "=0.23.1"
tree-sitter-lua = "=0.5.0"
tree-sitter-swift = "=0.7.4"
tree-sitter-elixir = "=0.3.5"
tree-sitter-bash = "=0.25.1"
tree-sitter-c-sharp = "=0.23.5"
tree-sitter-php = "=0.25.1"
tree-sitter-scala = "=0.26.4"
tree-sitter-haskell = "=0.24.1"
tree-sitter-zig = "=1.1.2"
tree-sitter-erlang = "=0.21.0"
tree-sitter-gleam = "=1.0.0"
tree-sitter-clojure = "=0.1.0"
tree-sitter-dart = "=0.3.0"
tree-sitter-elm = "=5.9.4"
tree-sitter-julia = "=0.23.1"
tree-sitter-json = "*"
serde = { version = "=1.0.229", features = ["derive"] }
serde_json = "=1.0.154"
ignore = "=0.4.34"
chrono = "=0.4.45"
