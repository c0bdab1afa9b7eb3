[package]
name = "interactive_picker"
version = "0.1.0"
edition = "2021"
publish = false

[dependencies]
anyhow = "1"
grep-regex = "0.1"
grep-searcher = "0.1"
ignore = "0.4"
log = "0.4"
nucleo = "0.5"
