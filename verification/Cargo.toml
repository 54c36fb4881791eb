[package]
name = "zedup"
version = "0.1.0"
edition = "2021"
publish = false

[dependencies]
octocrab = "=0.53.1"
pulldown-cmark = { version = "=0.13.4", default-features = false }
reqwest = { version = "=0.12.28", default-features = false, features = ["rustls-tls"] }
termimad = "=0.35.5"
tokio = { version = "=1.53.2", features = ["macros", "rt-multi-thread"] }
zip = { version = "=8.6.0", default-features = false, features = ["deflate"] }
