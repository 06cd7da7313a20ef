[package]
name = "aegistrate"
version = "0.1.0"
edition = "2021"
publish = false

[dependencies]
async-trait = "=0.1.92"
log = "=0.4.34"
mongod = "=0.3.6"
mongodb = "=2.8.2"
serenity = "=0.11.7"
tokio = { version = "=1.54.1", features = ["macros", "rt-multi-thread", "sync", "time"] }
