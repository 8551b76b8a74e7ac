[package]
name = "html_rewriter"
version = "0.1.0"
edition = "2021"
publish = false

[dependencies]
lol_html = "2.9.0"
