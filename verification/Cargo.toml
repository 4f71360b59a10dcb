[package]
name = "jq-repl"
version = "0.1.0"
edition = "2021"
publish = false

[dependencies]
atty = "0.2"
clap = { version = "4", features = ["derive", "env"] }
shell-quote = "*"
tempfile = "3"
