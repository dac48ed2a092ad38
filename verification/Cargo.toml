[package]
name = "llm_chain"
version = "0.1.0"
edition = "2021"
publish = false

[dependencies]
async-trait = "0.1"
futures = "0.3"
futures-util = "0.3"
log = "0.4"
