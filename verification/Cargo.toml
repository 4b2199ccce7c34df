[package]
name = "markdown_ppp"
version = "0.1.0"
edition = "2021"
publish = false

[dependencies]
pretty = "*"

[dev-dependencies]
nom = "*"
