[package]
name = "flick_scan"
version = "0.1.0"
edition = "2021"
publish = false

[dependencies]
oxc_allocator = "=0.143.0"
oxc_ast = { version = "=0.143.0", features = ["serialize"] }
oxc_parser = "=0.143.0"
oxc_semantic = "=0.143.0"
oxc_span = "=0.143.0"
oxc_syntax = "=0.143.0"
oxc_diagnostics = "=0.143.0"
serde = { version = "=1.0.229", features = ["derive"] }
serde_json = "=1.0.154"
sha2 = "=0.10.9"
miette = "=7.6.0"
clap = { version = "=4.6.7", features = ["derive"] }
colored = "=3.1.1"
crossterm = "=0.29.0"
ratatui = "=0.30.2"
ignore = "=0.4.34"
rayon = "=1.12.0"
