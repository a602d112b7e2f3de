[package]
name = "sanitize_html"
version = "0.1.0"
edition = "2021"
publish = false

[dependencies]
html5ever = "=0.25.2"
markup5ever_rcdom = "=0.1.0"
regex = "=1.13.1"
