[package]
name = "music_subgraphs"
version = "0.1.0"
edition = "2021"
publish = false

[dependencies]
async-graphql = "7"
async-graphql-axum = "7"
axum = "0.8"
tokio = { version = "1", features = ["macros", "rt-multi-thread", "net"] }
