[package]
name = "article_editor"
version = "0.1.0"
edition = "2021"
publish = false

[dependencies]
leptos = "0.7"
thaw = "0.4"
