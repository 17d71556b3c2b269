[package]
name = "scrap_rewrite"
version = "0.1.0"
edition = "2021"
publish = false

[dependencies]
anyhow = "1"
swc = "*"
swc_core = { version = "*", features = ["common", "ecma_ast", "ecma_codegen", "ecma_parser", "ecma_parser_typescript", "ecma_transforms", "ecma_transforms_typescript", "ecma_visit"] }
