[package]
name = "xilem_web_tailwindcss"
version = "0.1.0"
edition = "2021"
publish = false

[dependencies]
anyhow = "*"
clap = { version = "*", features = ["derive"] }
directories = "*"
reqwest = { version = "*", default-features = false, features = ["blocking"] }
target-lexicon = "*"
tracing = "*"
tracing-subscriber = { version = "*", features = ["env-filter"] }
which = "*"
