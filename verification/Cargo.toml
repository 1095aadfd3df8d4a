[package]
name = "sqll"
version = "0.1.0"
edition = "2021"
publish = false

[dependencies]
rusqlite = { version = "=0.41.1", features = ["bundled"] }
regex = "=1.13.1"
relative-path = "=2.0.3"
zip = { version = "=9.2.2", default-features = false, features = ["deflate"] }
anyhow = "=1.0.104"
clap = { version = "=4.6.7", features = ["derive"] }
syn = { version = "=2.0.119", features = ["full"] }
quote = "=1.0.47"
proc-macro2 = "=1.0.107"
tokio = { version = "=1.54.1", features = ["macros", "rt-multi-thread"] }
reqwest = { version = "=0.13.5", default-features = false }
bindgen = "=0.73.2"

[dev-dependencies]
tempfile = "=3.27.0"
