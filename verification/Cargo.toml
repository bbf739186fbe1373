[package]
name = "conntrack_sql"
version = "0.1.0"
edition = "2021"
publish = false

[dependencies]
gluesql = { version = "*", default-features = false }
conntrack = "*"
async-trait = "*"
futures = "*"
thiserror = "*"
tracing = "*"
