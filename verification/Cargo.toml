[package]
name = "surrealdb_schema_derive"
version = "0.1.0"
edition = "2021"
publish = false

[dependencies]
anyhow = "=1.0.104"
async-trait = "=0.1.92"
proc-macro2 = "=1.0.107"
quote = "=1.0.47"
syn = { version = "=1.0.109", features = ["full", "extra-traits"] }
thiserror = "=1.0.69"
surrealdb = { version = "=1.0.0-beta.8", default-features = false, features = ["kv-mem"] }
