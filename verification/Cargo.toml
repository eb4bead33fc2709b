[package]
name = "age_of_dragons_core"
version = "0.1.0"
edition = "2021"
publish = false

[dependencies]
anyhow = "*"
rocket = "*"
rocket_dyn_templates = { version = "*", features = ["handlebars"] }
